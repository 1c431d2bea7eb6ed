use vstd::prelude::*;

use crate::error::ContractError;
use crate::proto::QueryValidateWrappedTokenForTradeRequest;
use crate::state::Config;
use crate::text::{lower_of, lowercase, strip_prefix_or_keep, without_prefix};

verus! {

/// The scheme prefix that an asset handle may carry before its address.
pub open spec fn wrapped_prefix() -> Seq<char> {
    "wrapped:"@
}

/// The origin that a wrapped asset reports of itself.
#[derive(Debug, Clone, PartialEq, Eq)]
pub struct BridgeInfo {
    pub chain_id: String,
    pub contract_address: String,
}

/// The registry request for the asset handle `token_identifier`: its
/// address, without the scheme prefix.
pub fn trade_validation_request(token_identifier: &str) -> (r:
    QueryValidateWrappedTokenForTradeRequest)
    ensures
        r.contract_address@ == without_prefix(token_identifier@, wrapped_prefix()),
{
    QueryValidateWrappedTokenForTradeRequest {
        contract_address: strip_prefix_or_keep(token_identifier, "wrapped:"),
    }
}

/// The reported origin is the configured pair; the reported contract is
/// compared lowercased.
pub open spec fn origin_matches(config: Config, reported: BridgeInfo) -> bool {
    &&& reported.chain_id@ == config.accepted_chain_id@
    &&& lower_of(reported.contract_address@) == config.accepted_eth_contract@
}

/// The error for a reported origin that is not the configured pair.
pub open spec fn is_wrong_token(e: ContractError, config: Config, reported: BridgeInfo) -> bool {
    e matches ContractError::WrongToken { expected_chain, expected_contract, got_chain, got_contract }
        && expected_chain == config.accepted_chain_id && expected_contract
        == config.accepted_eth_contract && got_chain == reported.chain_id && got_contract@
        == lower_of(reported.contract_address@)
}

/// Compares the origin that an asset reports with the configured pair.
pub fn check_origin(config: &Config, reported: BridgeInfo) -> (r: Result<(), ContractError>)
    ensures
        r is Ok <==> origin_matches(*config, reported),
        r matches Err(e) ==> is_wrong_token(e, *config, reported),
{
    let got_contract = lowercase(reported.contract_address.as_str());
    if reported.chain_id == config.accepted_chain_id && got_contract
        == config.accepted_eth_contract {
        Ok(())
    } else {
        Err(
            ContractError::WrongToken {
                expected_chain: config.accepted_chain_id.clone(),
                expected_contract: config.accepted_eth_contract.clone(),
                got_chain: reported.chain_id,
                got_contract,
            },
        )
    }
}

} // verus!
