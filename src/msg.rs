use vstd::prelude::*;

verus! {

/// Parameters of a new sale contract.
#[derive(Debug, Clone, PartialEq, Eq)]
pub struct InstantiateMsg {
    pub admin: String,
    pub buyer: String,
    pub accepted_chain_id: String,
    pub accepted_eth_contract: String,
    /// Price of one native unit in quote micro-units (6 decimals).
    pub price_usd: u128,
}

/// The operations of the sale contract.
#[derive(Debug, Clone, PartialEq, Eq)]
pub enum ExecuteMsg {
    /// A transfer of wrapped quote tokens to this contract: a purchase.
    Receive(Cw20ReceiveMsg),
    Pause {},
    Resume {},
    UpdateBuyer { buyer: String },
    UpdatePrice { price_usd: u128 },
    WithdrawNativeTokens { amount: u128, recipient: String },
    EmergencyWithdraw { recipient: String },
}

/// Notice of a token transfer to this contract.
#[derive(Debug, Clone, PartialEq, Eq)]
pub struct Cw20ReceiveMsg {
    /// Who sent the tokens (not the token contract).
    pub sender: String,
    /// Quote micro-units received.
    pub amount: u128,
    /// The attached payload, JSON bytes.
    pub msg: Vec<u8>,
}

/// The payload of a purchase: a marker without fields.
#[derive(Debug, Clone, PartialEq, Eq)]
pub struct PurchaseTokenMsg {}

/// The queries of the sale contract.
#[derive(Debug, Clone, PartialEq, Eq)]
pub enum QueryMsg {
    Config {},
    NativeBalance {},
    CalculateTokens { usd_amount: u128 },
    TestBridgeValidation { cw20_contract: String },
    BlockHeight {},
    TestApprovedTokens {},
}

/// A snapshot of the sale configuration.
#[derive(Debug, Clone, PartialEq, Eq)]
pub struct ConfigResponse {
    pub admin: String,
    pub buyer: String,
    pub accepted_chain_id: String,
    pub accepted_eth_contract: String,
    pub price_usd: u128,
    pub native_denom: String,
    pub is_paused: bool,
    pub total_tokens_sold: u128,
}

/// An amount of one denomination.
#[derive(Debug, Clone, PartialEq, Eq)]
pub struct Coin {
    pub denom: String,
    pub amount: u128,
}

/// The contract's own native balance.
#[derive(Debug, Clone, PartialEq, Eq)]
pub struct NativeBalanceResponse {
    pub balance: Coin,
}

/// A conversion preview.
#[derive(Debug, Clone, PartialEq, Eq)]
pub struct TokenCalculationResponse {
    pub tokens: u128,
    pub price_usd: u128,
}

/// Whether the registry approves a given token contract.
#[derive(Debug, Clone, PartialEq, Eq)]
pub struct TestBridgeValidationResponse {
    pub is_valid: bool,
}

/// The current block height.
#[derive(Debug, Clone, PartialEq, Eq)]
pub struct BlockHeightResponse {
    pub height: u64,
}

/// The registry's approved origin pairs.
#[derive(Debug, Clone, PartialEq, Eq)]
pub struct ApprovedTokensForTradeJson {
    pub approved_tokens: Vec<ApprovedTokenJson>,
}

/// One approved origin pair.
#[derive(Debug, Clone, PartialEq, Eq)]
pub struct ApprovedTokenJson {
    pub chain_id: String,
    pub contract_address: String,
}

} // verus!
