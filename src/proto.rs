use vstd::prelude::*;

verus! {

/// Asks the chain's registry whether `contract_address` is a bridge-wrapped
/// asset approved for trading.
#[derive(Debug, Clone, PartialEq, Eq)]
pub struct QueryValidateWrappedTokenForTradeRequest {
    pub contract_address: String,
}

/// The registry's answer to a validation request.
#[derive(Debug, Clone, PartialEq, Eq)]
pub struct QueryValidateWrappedTokenForTradeResponse {
    pub is_valid: bool,
}

/// An origin pair that the registry approves for trading.
#[derive(Debug, Clone, PartialEq, Eq)]
pub struct BridgeTradeApprovedToken {
    pub chain_id: String,
    pub contract_address: String,
}

/// The registry's list of approved origin pairs.
#[derive(Debug, Clone, PartialEq, Eq)]
pub struct QueryApprovedTokensForTradeResponseProto {
    pub approved_tokens: Vec<BridgeTradeApprovedToken>,
}

/// A request without fields.
#[derive(Debug, Clone, PartialEq, Eq)]
pub struct EmptyRequest {}

/// Asks the bank module for the total supply of every denomination.
#[derive(Debug, Clone, PartialEq, Eq)]
pub struct QueryTotalSupplyRequest {}

/// The bank module's total supply, one coin per denomination.
#[derive(Debug, Clone, PartialEq, Eq)]
pub struct QueryTotalSupplyResponse {
    pub supply: Vec<CoinProto>,
}

/// A coin as the bank module reports it, its amount in decimal text.
#[derive(Debug, Clone, PartialEq, Eq)]
pub struct CoinProto {
    pub denom: String,
    pub amount: String,
}

/// The chain-level instruction that withdraws burned wrapped funds to the
/// origin chain.
#[derive(Debug, Clone, PartialEq, Eq)]
pub struct MsgRequestBridgeWithdrawal {
    /// The signer of the instruction: the wrapped-asset contract itself.
    pub creator: String,
    /// The holder whose funds were burned.
    pub user_address: String,
    /// The burned amount, in decimal text.
    pub amount: String,
    /// Where the funds go on the origin chain; read by the bridge module only.
    pub destination_address: String,
}

} // verus!
