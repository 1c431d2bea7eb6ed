use vstd::prelude::*;
use vstd::string::*;

use crate::bridge::{trade_validation_request, wrapped_prefix};
use crate::conversion::{calculate_tokens_for_usd, tokens_for};
use crate::error::ContractError;
use crate::msg::{
    ApprovedTokenJson, ApprovedTokensForTradeJson, ConfigResponse, InstantiateMsg,
    TestBridgeValidationResponse, TokenCalculationResponse,
};
use crate::proto::{
    QueryApprovedTokensForTradeResponseProto, QueryTotalSupplyResponse,
    QueryValidateWrappedTokenForTradeRequest, QueryValidateWrappedTokenForTradeResponse,
};
use crate::response::{attr, attributes_are, Attribute, Instruction, Response};
use crate::state::Config;
use crate::text::{decimal_of, has_prefix, lower_of, lowercase, to_decimal, without_prefix};

verus! {

/// The native denomination used when the bank module names none.
pub open spec fn default_native_denom() -> Seq<char> {
    "ngonka"@
}

/// The native denomination: that of the first coin of the bank's total
/// supply when there is one with a name, else the default. `None` stands
/// for a supply query that failed.
pub open spec fn native_denom_of(supply: Option<QueryTotalSupplyResponse>) -> Seq<char> {
    match supply {
        Some(resp) => if resp.supply@.len() > 0 && resp.supply@[0].denom@.len() > 0 {
            resp.supply@[0].denom@
        } else {
            default_native_denom()
        },
        None => default_native_denom(),
    }
}

/// Picks the native denomination from the bank's total supply.
pub fn get_native_denom(supply: &Option<QueryTotalSupplyResponse>) -> (r: String)
    ensures
        r@ == native_denom_of(*supply),
{
    match supply {
        Some(resp) => {
            if resp.supply.len() > 0 && !resp.supply[0].denom.as_str().is_empty() {
                return resp.supply[0].denom.clone();
            }
            String::from_str("ngonka")
        },
        None => String::from_str("ngonka"),
    }
}

/// Sets up the sale. `admin` and `buyer` are the validated addresses of
/// `msg`; `supply` is the bank's total supply, `None` when its query failed.
/// The price must not be zero and the origin pair must be given; the
/// origin contract is stored lowercased.
pub fn instantiate(
    msg: InstantiateMsg,
    admin: String,
    buyer: String,
    supply: Option<QueryTotalSupplyResponse>,
) -> (r: Result<(Config, Response), ContractError>)
    ensures
        r is Ok <==> msg.price_usd != 0 && msg.accepted_chain_id@.len() > 0
            && msg.accepted_eth_contract@.len() > 0,
        msg.price_usd == 0 ==> r == Err::<(Config, Response), _>(ContractError::ZeroAmount {}),
        msg.price_usd != 0 && !(r is Ok) ==> r matches Err(ContractError::Std(_)),
        r matches Ok((config, resp)) ==> {
            &&& config.wf()
            &&& config.admin == admin
            &&& config.buyer == buyer
            &&& config.accepted_chain_id == msg.accepted_chain_id
            &&& config.accepted_eth_contract@ == lower_of(msg.accepted_eth_contract@)
            &&& config.price_usd == msg.price_usd
            &&& config.native_denom@ == native_denom_of(supply)
            &&& !config.is_paused
            &&& config.total_tokens_sold == 0
            &&& resp.messages@.len() == 0
            &&& attributes_are(
                resp.attributes@,
                seq![
                    ("method"@, "instantiate"@),
                    ("admin"@, admin@),
                    ("buyer"@, buyer@),
                    ("accepted_chain_id"@, msg.accepted_chain_id@),
                    ("accepted_eth_contract"@, msg.accepted_eth_contract@),
                    ("price_usd"@, decimal_of(msg.price_usd as nat)),
                    ("native_denom"@, native_denom_of(supply)),
                ],
            )
        },
{
    if msg.price_usd == 0 {
        return Err(ContractError::ZeroAmount {});
    }
    if msg.accepted_chain_id.as_str().is_empty() || msg.accepted_eth_contract.as_str().is_empty() {
        return Err(
            ContractError::Std(
                String::from_str("accepted_chain_id and accepted_eth_contract required"),
            ),
        );
    }
    let native_denom = get_native_denom(&supply);
    let config = Config {
        admin: admin.clone(),
        buyer: buyer.clone(),
        accepted_chain_id: msg.accepted_chain_id.clone(),
        accepted_eth_contract: lowercase(msg.accepted_eth_contract.as_str()),
        price_usd: msg.price_usd,
        native_denom: native_denom.clone(),
        is_paused: false,
        total_tokens_sold: 0,
    };
    let mut attributes: Vec<Attribute> = Vec::new();
    attributes.push(attr("method", String::from_str("instantiate")));
    attributes.push(attr("admin", admin));
    attributes.push(attr("buyer", buyer));
    attributes.push(attr("accepted_chain_id", msg.accepted_chain_id));
    attributes.push(attr("accepted_eth_contract", msg.accepted_eth_contract));
    attributes.push(attr("price_usd", to_decimal(msg.price_usd)));
    attributes.push(attr("native_denom", native_denom));
    Ok((config, Response { messages: Vec::new(), attributes }))
}

/// The caller is the configured admin.
pub open spec fn is_admin(config: Config, sender: Seq<char>) -> bool {
    sender == config.admin@
}

/// A response with no instruction and the single attribute `method = name`.
pub open spec fn method_only(resp: Response, name: Seq<char>) -> bool {
    resp.messages@.len() == 0 && attributes_are(resp.attributes@, seq![("method"@, name)])
}

fn method_response(name: &str) -> (resp: Response)
    ensures
        method_only(resp, name@),
{
    let mut attributes: Vec<Attribute> = Vec::new();
    attributes.push(attr("method", String::from_str(name)));
    Response { messages: Vec::new(), attributes }
}

/// Admin only: declines every purchase from now on.
pub fn pause_contract(config: Config, sender: &String) -> (r: Result<(Config, Response), ContractError>)
    ensures
        !is_admin(config, sender@) ==> r == Err::<(Config, Response), _>(ContractError::Unauthorized {}),
        is_admin(config, sender@) ==> (r matches Ok((c, resp)) && c == (Config { is_paused: true, ..config })
            && method_only(resp, "pause"@)),
{
    if *sender != config.admin {
        return Err(ContractError::Unauthorized {});
    }
    Ok((Config { is_paused: true, ..config }, method_response("pause")))
}

/// Admin only: accepts purchases again.
pub fn resume_contract(config: Config, sender: &String) -> (r: Result<(Config, Response), ContractError>)
    ensures
        !is_admin(config, sender@) ==> r == Err::<(Config, Response), _>(ContractError::Unauthorized {}),
        is_admin(config, sender@) ==> (r matches Ok((c, resp)) && c == (Config { is_paused: false, ..config })
            && method_only(resp, "resume"@)),
{
    if *sender != config.admin {
        return Err(ContractError::Unauthorized {});
    }
    Ok((Config { is_paused: false, ..config }, method_response("resume")))
}

/// Admin only: names a new buyer. `buyer` is the new address as validated
/// by the host, or why it did not validate.
pub fn update_buyer(config: Config, sender: &String, buyer: Result<String, String>) -> (r: Result<
    (Config, Response),
    ContractError,
>)
    ensures
        !is_admin(config, sender@) ==> r == Err::<(Config, Response), _>(ContractError::Unauthorized {}),
        is_admin(config, sender@) ==> match buyer {
            Err(e) => r == Err::<(Config, Response), _>(ContractError::Std(e)),
            Ok(b) => r matches Ok((c, resp)) && c == (Config { buyer: b, ..config })
                && resp.messages@.len() == 0 && attributes_are(
                resp.attributes@,
                seq![("method"@, "update_buyer"@), ("buyer"@, b@)],
            ),
        },
{
    if *sender != config.admin {
        return Err(ContractError::Unauthorized {});
    }
    match buyer {
        Err(e) => Err(ContractError::Std(e)),
        Ok(b) => {
            let mut attributes: Vec<Attribute> = Vec::new();
            attributes.push(attr("method", String::from_str("update_buyer")));
            attributes.push(attr("buyer", b.clone()));
            Ok((Config { buyer: b, ..config }, Response { messages: Vec::new(), attributes }))
        },
    }
}

/// Admin only: sets a new price, which must not be zero.
pub fn update_price(config: Config, sender: &String, price_usd: u128) -> (r: Result<
    (Config, Response),
    ContractError,
>)
    ensures
        !is_admin(config, sender@) ==> r == Err::<(Config, Response), _>(ContractError::Unauthorized {}),
        is_admin(config, sender@) && price_usd == 0 ==> r == Err::<(Config, Response), _>(
            ContractError::ZeroAmount {},
        ),
        is_admin(config, sender@) && price_usd != 0 ==> (r matches Ok((c, resp)) && c == (Config {
            price_usd,
            ..config
        }) && c.wf() && resp.messages@.len() == 0 && attributes_are(
            resp.attributes@,
            seq![("method"@, "update_price"@), ("price_usd"@, decimal_of(price_usd as nat))],
        )),
{
    if *sender != config.admin {
        return Err(ContractError::Unauthorized {});
    }
    if price_usd == 0 {
        return Err(ContractError::ZeroAmount {});
    }
    let mut attributes: Vec<Attribute> = Vec::new();
    attributes.push(attr("method", String::from_str("update_price")));
    attributes.push(attr("price_usd", to_decimal(price_usd)));
    Ok((Config { price_usd, ..config }, Response { messages: Vec::new(), attributes }))
}

/// Admin only: sends `amount` native units to `recipient`. `validated` is
/// the recipient as validated by the host, or why it did not validate.
pub fn withdraw_native_tokens(
    config: &Config,
    sender: &String,
    amount: u128,
    recipient: String,
    validated: Result<String, String>,
) -> (r: Result<Response, ContractError>)
    ensures
        !is_admin(*config, sender@) ==> r == Err::<Response, _>(ContractError::Unauthorized {}),
        is_admin(*config, sender@) ==> match validated {
            Err(e) => r == Err::<Response, _>(ContractError::Std(e)),
            Ok(to) => if amount == 0 {
                r == Err::<Response, _>(ContractError::ZeroAmount {})
            } else {
                r matches Ok(resp) && resp.messages@ == seq![
                    Instruction::BankSend { to_address: to, denom: config.native_denom, amount },
                ] && attributes_are(
                    resp.attributes@,
                    seq![
                        ("method"@, "withdraw"@),
                        ("amount"@, decimal_of(amount as nat)),
                        ("recipient"@, recipient@),
                    ],
                )
            },
        },
{
    if *sender != config.admin {
        return Err(ContractError::Unauthorized {});
    }
    let to = match validated {
        Err(e) => {
            return Err(ContractError::Std(e));
        },
        Ok(to) => to,
    };
    if amount == 0 {
        return Err(ContractError::ZeroAmount {});
    }
    let mut messages: Vec<Instruction> = Vec::new();
    messages.push(
        Instruction::BankSend { to_address: to, denom: config.native_denom.clone(), amount },
    );
    let mut attributes: Vec<Attribute> = Vec::new();
    attributes.push(attr("method", String::from_str("withdraw")));
    attributes.push(attr("amount", to_decimal(amount)));
    attributes.push(attr("recipient", recipient));
    assert(messages@ =~= seq![
        Instruction::BankSend { to_address: to, denom: config.native_denom, amount },
    ]);
    Ok(Response { messages, attributes })
}

/// Admin only: sends the contract's whole native balance to `recipient`.
/// `validated` is the recipient as validated by the host; `balance` is the
/// contract's native balance, or why its query failed.
pub fn emergency_withdraw(
    config: &Config,
    sender: &String,
    recipient: String,
    validated: Result<String, String>,
    balance: Result<u128, String>,
) -> (r: Result<Response, ContractError>)
    ensures
        !is_admin(*config, sender@) ==> r == Err::<Response, _>(ContractError::Unauthorized {}),
        is_admin(*config, sender@) ==> match (validated, balance) {
            (Err(e), _) => r == Err::<Response, _>(ContractError::Std(e)),
            (Ok(_), Err(e)) => r == Err::<Response, _>(ContractError::Std(e)),
            (Ok(to), Ok(amount)) => if amount == 0 {
                r matches Ok(resp) && resp.messages@.len() == 0 && attributes_are(
                    resp.attributes@,
                    seq![("method"@, "emergency_withdraw"@), ("message"@, "no_funds"@)],
                )
            } else {
                r matches Ok(resp) && resp.messages@ == seq![
                    Instruction::BankSend { to_address: to, denom: config.native_denom, amount },
                ] && attributes_are(
                    resp.attributes@,
                    seq![
                        ("method"@, "emergency_withdraw"@),
                        ("amount"@, decimal_of(amount as nat)),
                        ("recipient"@, recipient@),
                    ],
                )
            },
        },
{
    if *sender != config.admin {
        return Err(ContractError::Unauthorized {});
    }
    let to = match validated {
        Err(e) => {
            return Err(ContractError::Std(e));
        },
        Ok(to) => to,
    };
    let amount = match balance {
        Err(e) => {
            return Err(ContractError::Std(e));
        },
        Ok(amount) => amount,
    };
    let mut attributes: Vec<Attribute> = Vec::new();
    attributes.push(attr("method", String::from_str("emergency_withdraw")));
    if amount == 0 {
        attributes.push(attr("message", String::from_str("no_funds")));
        return Ok(Response { messages: Vec::new(), attributes });
    }
    let mut messages: Vec<Instruction> = Vec::new();
    messages.push(
        Instruction::BankSend { to_address: to, denom: config.native_denom.clone(), amount },
    );
    attributes.push(attr("amount", to_decimal(amount)));
    attributes.push(attr("recipient", recipient));
    assert(messages@ =~= seq![
        Instruction::BankSend { to_address: to, denom: config.native_denom, amount },
    ]);
    Ok(Response { messages, attributes })
}

/// A snapshot of the configuration.
pub fn query_config(config: Config) -> (r: ConfigResponse)
    ensures
        r == (ConfigResponse {
            admin: config.admin,
            buyer: config.buyer,
            accepted_chain_id: config.accepted_chain_id,
            accepted_eth_contract: config.accepted_eth_contract,
            price_usd: config.price_usd,
            native_denom: config.native_denom,
            is_paused: config.is_paused,
            total_tokens_sold: config.total_tokens_sold,
        }),
{
    ConfigResponse {
        admin: config.admin,
        buyer: config.buyer,
        accepted_chain_id: config.accepted_chain_id,
        accepted_eth_contract: config.accepted_eth_contract,
        price_usd: config.price_usd,
        native_denom: config.native_denom,
        is_paused: config.is_paused,
        total_tokens_sold: config.total_tokens_sold,
    }
}

/// What `usd_amount` would buy at the configured price.
pub fn query_calculate_tokens(config: &Config, usd_amount: u128) -> (r: TokenCalculationResponse)
    ensures
        r.tokens == tokens_for(usd_amount, config.price_usd),
        r.price_usd == config.price_usd,
{
    TokenCalculationResponse {
        tokens: calculate_tokens_for_usd(usd_amount, config.price_usd),
        price_usd: config.price_usd,
    }
}

/// The registry request that checks the token contract `cw20_contract`,
/// given with or without the scheme prefix.
pub fn test_bridge_validation_request(cw20_contract: &String) -> (r:
    QueryValidateWrappedTokenForTradeRequest)
    ensures
        r.contract_address@ == without_prefix(cw20_contract@, wrapped_prefix()),
{
    if has_prefix(cw20_contract.as_str(), "wrapped:") {
        trade_validation_request(cw20_contract.as_str())
    } else {
        let mut handle = String::from_str("wrapped:");
        handle.append(cw20_contract.as_str());
        let r = trade_validation_request(handle.as_str());
        assert(wrapped_prefix().is_prefix_of(handle@)) by {
            assert(handle@.subrange(0, wrapped_prefix().len() as int) =~= wrapped_prefix());
        }
        assert(handle@.subrange(wrapped_prefix().len() as int, handle@.len() as int)
            =~= cw20_contract@);
        r
    }
}

/// The registry's verdict as reported to a caller: an approval, or `false`
/// for a refusal and for a query that failed.
pub fn query_test_bridge_validation(
    answer: Result<QueryValidateWrappedTokenForTradeResponse, String>,
) -> (r: TestBridgeValidationResponse)
    ensures
        r.is_valid == (answer matches Ok(a) && a.is_valid),
{
    match answer {
        Ok(a) => TestBridgeValidationResponse { is_valid: a.is_valid },
        Err(_) => TestBridgeValidationResponse { is_valid: false },
    }
}

/// The registry's approved origin pairs, in the order it gave them.
pub fn query_test_approved_tokens(decoded: &QueryApprovedTokensForTradeResponseProto) -> (r:
    ApprovedTokensForTradeJson)
    ensures
        r.approved_tokens@.len() == decoded.approved_tokens@.len(),
        forall|i: int|
            0 <= i < r.approved_tokens@.len() ==> (#[trigger] r.approved_tokens@[i]).chain_id
                == decoded.approved_tokens@[i].chain_id && r.approved_tokens@[i].contract_address
                == decoded.approved_tokens@[i].contract_address,
{
    let mut approved_tokens: Vec<ApprovedTokenJson> = Vec::new();
    let n = decoded.approved_tokens.len();
    let mut i: usize = 0;
    while i < n
        invariant
            n == decoded.approved_tokens@.len(),
            i <= n,
            approved_tokens@.len() == i,
            forall|j: int|
                0 <= j < i ==> (#[trigger] approved_tokens@[j]).chain_id
                    == decoded.approved_tokens@[j].chain_id && approved_tokens@[j].contract_address
                    == decoded.approved_tokens@[j].contract_address,
        decreases n - i,
    {
        let t = &decoded.approved_tokens[i];
        approved_tokens.push(
            ApprovedTokenJson {
                chain_id: t.chain_id.clone(),
                contract_address: t.contract_address.clone(),
            },
        );
        i = i + 1;
    }
    ApprovedTokensForTradeJson { approved_tokens }
}

} // verus!
