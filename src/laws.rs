use vstd::prelude::*;

use crate::conversion::{tokens_for, NATIVE_SCALE};
use crate::sale::is_admin;
use crate::state::Config;

verus! {

/// With a non-zero price the conversion is `floor(amount * 10^9 / price)`,
/// whenever that value fits in 128 bits; with a zero price it is zero.
pub proof fn lemma_conversion_is_floor_division(amount: u128, price: u128)
    ensures
        price > 0 && (amount * NATIVE_SCALE) / (price as int) <= u128::MAX ==> tokens_for(
            amount,
            price,
        ) == (amount * NATIVE_SCALE) / (price as int),
        tokens_for(amount, 0) == 0,
{
}

/// The sum of a sequence of token amounts.
pub open spec fn sum_of(tokens: Seq<u128>) -> int
    decreases tokens.len(),
{
    if tokens.len() == 0 {
        0
    } else {
        sum_of(tokens.drop_last()) + tokens.last()
    }
}

/// Over a run of operations, each taking `configs[i]` to `configs[i + 1]`
/// and raising the total sold by `tokens[i]`, the total sold grows by the
/// sum of the amounts and never decreases from one configuration to a later
/// one. A settled purchase raises it by the tokens it bought (`settles`);
/// an administrative operation keeps it, which is a step with zero tokens.
pub proof fn lemma_total_sold_accumulates(configs: Seq<Config>, tokens: Seq<u128>)
    requires
        configs.len() == tokens.len() + 1,
        forall|i: int|
            0 <= i < tokens.len() ==> (#[trigger] configs[i + 1]).total_tokens_sold
                == configs[i].total_tokens_sold + tokens[i],
    ensures
        configs.last().total_tokens_sold == configs[0].total_tokens_sold + sum_of(tokens),
        forall|i: int, j: int|
            0 <= i <= j < configs.len() ==> (#[trigger] configs[i]).total_tokens_sold
                <= (#[trigger] configs[j]).total_tokens_sold,
    decreases tokens.len(),
{
    if tokens.len() > 0 {
        let n = tokens.len() as int;
        let head = configs.drop_last();
        assert forall|i: int| 0 <= i < tokens.drop_last().len() implies (#[trigger] head[i
            + 1]).total_tokens_sold == head[i].total_tokens_sold + tokens.drop_last()[i] by {
            assert(configs[i + 1].total_tokens_sold == configs[i].total_tokens_sold + tokens[i]);
        }
        lemma_total_sold_accumulates(head, tokens.drop_last());
        assert(configs[n].total_tokens_sold == configs[n - 1].total_tokens_sold + tokens[n - 1]);
        assert forall|i: int, j: int|
            0 <= i <= j < configs.len() implies (#[trigger] configs[i]).total_tokens_sold
            <= (#[trigger] configs[j]).total_tokens_sold by {
            if j == n {
                if i < n {
                    assert(head[i] == configs[i]);
                    assert(head[n - 1] == configs[n - 1]);
                }
            } else {
                assert(head[i] == configs[i]);
                assert(head[j] == configs[j]);
            }
        }
    }
}

/// Pausing changes no administrative decision: who may act as admin is the
/// same whether the sale is paused or not.
pub proof fn lemma_admin_ignores_pause(config: Config, sender: Seq<char>, paused: bool)
    ensures
        is_admin(config, sender) == is_admin(Config { is_paused: paused, ..config }, sender),
{
}

} // verus!
