use vstd::prelude::*;

verus! {

/// Why an operation of either contract was declined.
#[derive(Debug, Clone, PartialEq, Eq)]
pub enum ContractError {
    /// A failure of the surrounding infrastructure: storage, encoding, a
    /// query that could not be answered, an address that does not validate.
    Std(String),
    Unauthorized {},
    ContractPaused {},
    InvalidToken { token: String },
    ZeroAmount {},
    InsufficientBalance { available: u128, needed: u128 },
    InsufficientFunds { balance: u128, required: u128 },
    TokenNotAccepted { token: String },
    BuyerNotAllowed { buyer: String },
    WrongToken {
        expected_chain: String,
        expected_contract: String,
        got_chain: String,
        got_contract: String,
    },
}

} // verus!
