use vstd::prelude::*;

verus! {

/// The sale's durable configuration.
#[derive(Debug, PartialEq, Eq)]
pub struct Config {
    /// The authority over every administrative operation; receives the
    /// quote tokens paid in.
    pub admin: String,
    /// The only address allowed to purchase.
    pub buyer: String,
    /// Origin chain of the accepted wrapped quote asset.
    pub accepted_chain_id: String,
    /// Origin contract of the accepted wrapped quote asset, lowercased.
    pub accepted_eth_contract: String,
    /// Price of one native unit in quote micro-units (6 decimals).
    pub price_usd: u128,
    /// Denomination of the native asset sold.
    pub native_denom: String,
    /// While set, every purchase is declined.
    pub is_paused: bool,
    /// Native base units sold so far.
    pub total_tokens_sold: u128,
}

impl Config {
    /// The price is never zero.
    pub open spec fn wf(&self) -> bool {
        self.price_usd > 0
    }
}

impl Clone for Config {
    fn clone(&self) -> (r: Self)
        ensures
            r == *self,
    {
        Config {
            admin: self.admin.clone(),
            buyer: self.buyer.clone(),
            accepted_chain_id: self.accepted_chain_id.clone(),
            accepted_eth_contract: self.accepted_eth_contract.clone(),
            price_usd: self.price_usd,
            native_denom: self.native_denom.clone(),
            is_paused: self.is_paused,
            total_tokens_sold: self.total_tokens_sold,
        }
    }
}

/// `after` is `before` with `tokens` more sold and nothing else changed.
pub open spec fn settles(before: Config, after: Config, tokens: u128) -> bool {
    &&& after.total_tokens_sold == before.total_tokens_sold + tokens
    &&& after == (Config { total_tokens_sold: after.total_tokens_sold, ..before })
}

} // verus!
