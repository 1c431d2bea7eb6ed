use vstd::arithmetic::div_mod::{lemma_fundamental_div_mod, lemma_fundamental_div_mod_converse};
use vstd::prelude::*;

verus! {

/// Number of base units of the native asset in one whole unit (9 decimals).
pub const NATIVE_SCALE: u128 = 1_000_000_000;

/// The exact conversion `floor(usd_amount * 10^9 / price)`, for `price > 0`.
pub open spec fn scaled_quotient(usd_amount: u128, price: u128) -> int {
    (usd_amount * NATIVE_SCALE) / (price as int)
}

/// How many native base units `usd_amount` buys at `price` quote micro-units
/// per whole native unit: `floor(usd_amount * 10^9 / price)`. A zero price
/// gives zero, and so does a result too large for 128 bits.
pub open spec fn tokens_for(usd_amount: u128, price: u128) -> u128 {
    if price == 0 || scaled_quotient(usd_amount, price) > u128::MAX {
        0
    } else {
        scaled_quotient(usd_amount, price) as u128
    }
}

/// `10 * x` split by `p`: the quotient and the remainder, for `x < p`.
fn times_ten_div_mod(x: u128, p: u128) -> (r: (u128, u128))
    requires
        x < p,
    ensures
        r.0 <= 10,
        r.1 < p,
        r.0 * p + r.1 == 10 * x,
{
    let mut c: u128 = 0;
    let mut m: u128 = 0;
    let mut j: u128 = 0;
    while j < 10
        invariant
            x < p,
            j <= 10,
            c <= j,
            m < p,
            c * p + m == j * x,
        decreases 10 - j,
    {
        assert((c + 1) * p == c * p + p) by (nonlinear_arith);
        assert((j + 1) * x == j * x + x) by (nonlinear_arith);
        if m >= p - x {
            m = m - (p - x);
            c = c + 1;
        } else {
            m = m + x;
        }
        j = j + 1;
    }
    (c, m)
}

/// `floor(r * 10^9 / p)` for a remainder `r < p`, one decimal digit at a
/// time, so that no intermediate value leaves 128 bits.
fn scaled_fraction(r: u128, p: u128) -> (f: u128)
    requires
        r < p,
    ensures
        f as int == (r * NATIVE_SCALE) / (p as int),
        f <= NATIVE_SCALE,
{
    let mut q: u128 = 0;
    let mut rem: u128 = r;
    let mut scale: u128 = 1;
    while scale < NATIVE_SCALE
        invariant
            r < p,
            rem < p,
            scale == 1 || scale == 10 || scale == 100 || scale == 1_000 || scale == 10_000
                || scale == 100_000 || scale == 1_000_000 || scale == 10_000_000 || scale
                == 100_000_000 || scale == 1_000_000_000,
            q <= scale,
            r * scale == q * p + rem,
        decreases NATIVE_SCALE - scale,
    {
        let (c, m) = times_ten_div_mod(rem, p);
        assert(r * (scale * 10) == (r * scale) * 10) by (nonlinear_arith);
        assert((q * 10 + c) * p == (q * p) * 10 + c * p) by (nonlinear_arith);
        q = q * 10 + c;
        rem = m;
        scale = scale * 10;
    }
    proof {
        lemma_fundamental_div_mod_converse(r * NATIVE_SCALE, p as int, q as int, rem as int);
    }
    q
}

/// Converts a paid-in quote amount (6 decimals) into native base units
/// (9 decimals) at the fixed `price_per_token`, rounding down.
pub fn calculate_tokens_for_usd(usd_amount: u128, price_per_token: u128) -> (tokens: u128)
    ensures
        tokens == tokens_for(usd_amount, price_per_token),
{
    if price_per_token == 0 {
        return 0;
    }
    let whole = usd_amount / price_per_token;
    let part = usd_amount % price_per_token;
    let fraction = scaled_fraction(part, price_per_token);
    proof {
        let a = usd_amount as int;
        let p = price_per_token as int;
        let s = NATIVE_SCALE as int;
        lemma_fundamental_div_mod(a, p);
        lemma_fundamental_div_mod(part * s, p);
        let rm = (part * s) % p;
        assert(a * s == (whole * s + fraction) * p + rm) by (nonlinear_arith)
            requires
                a == p * whole + part,
                part * s == p * fraction + rm,
        ;
        lemma_fundamental_div_mod_converse(a * s, p, whole * s + fraction, rm);
    }
    match whole.checked_mul(NATIVE_SCALE) {
        Some(scaled) => match scaled.checked_add(fraction) {
            Some(total) => total,
            None => 0,
        },
        None => 0,
    }
}

} // verus!
