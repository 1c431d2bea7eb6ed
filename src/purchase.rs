use vstd::prelude::*;
use vstd::string::*;

use crate::bridge::{
    check_origin, is_wrong_token, origin_matches, trade_validation_request, wrapped_prefix,
    BridgeInfo,
};
use crate::conversion::{calculate_tokens_for_usd, tokens_for};
use crate::error::ContractError;
use crate::msg::{Cw20ReceiveMsg, PurchaseTokenMsg};
use crate::proto::{QueryValidateWrappedTokenForTradeRequest, QueryValidateWrappedTokenForTradeResponse};
use crate::response::{attr, attributes_are, Attribute, Instruction, Response};
use crate::state::{settles, Config};
use crate::text::{decimal_of, to_decimal, without_prefix};

verus! {

/// The JSON message that moves `amount` wrapped quote units to `recipient`.
pub open spec fn transfer_json(recipient: Seq<char>, amount: u128) -> Seq<char> {
    "{\"transfer\":{\"recipient\":\""@ + recipient + "\",\"amount\":\""@ + decimal_of(
        amount as nat,
    ) + "\"}}"@
}

/// The instruction that transfers `amount` of the token `cw20_contract` to
/// `recipient`.
pub fn create_cw20_transfer_msg(cw20_contract: String, recipient: &String, amount: u128) -> (m:
    Instruction)
    ensures
        m matches Instruction::WasmExecute { contract_addr, msg } && contract_addr == cw20_contract
            && msg@ == transfer_json(recipient@, amount),
{
    let mut text = String::from_str("{\"transfer\":{\"recipient\":\"");
    text.append(recipient.as_str());
    text.append("\",\"amount\":\"");
    let digits = to_decimal(amount);
    text.append(digits.as_str());
    text.append("\"}}");
    Instruction::WasmExecute { contract_addr: cw20_contract, msg: text }
}

/// Where a purchase stands.
#[derive(Debug, Clone, Copy, PartialEq, Eq)]
pub enum PurchaseStep {
    Start,
    AwaitingRegistry,
    AwaitingOrigin,
    AwaitingBalance,
    Finished,
}

/// The progress of one purchase. Only this module makes stages, so a stage
/// is always one that the steps reached in order.
#[derive(Debug)]
pub struct PurchaseStage {
    step: PurchaseStep,
}

impl PurchaseStage {
    pub closed spec fn step(&self) -> PurchaseStep {
        self.step
    }

    /// The stage before anything is checked.
    pub fn start() -> (s: PurchaseStage)
        ensures
            s.step() == PurchaseStep::Start,
    {
        PurchaseStage { step: PurchaseStep::Start }
    }

    /// Whether the purchase has ended, settled or declined.
    pub fn is_finished(&self) -> (r: bool)
        ensures
            r == (self.step() == PurchaseStep::Finished),
    {
        match self.step {
            PurchaseStep::Finished => true,
            _ => false,
        }
    }
}

/// One purchase: the configuration as loaded, the token contract that
/// reported the transfer, the transfer itself and its decoded payload.
#[derive(Debug)]
pub struct PurchaseRequest {
    pub config: Config,
    pub token_contract: String,
    pub receive: Cw20ReceiveMsg,
    pub payload: Result<PurchaseTokenMsg, String>,
}

/// What the host reports back to a purchase.
#[derive(Debug)]
pub enum PurchaseReply {
    /// Nothing yet: the purchase begins.
    Begin,
    /// The registry's verdict on the token, or why the query failed.
    Registry(Result<QueryValidateWrappedTokenForTradeResponse, String>),
    /// The origin that the token reports, or why the query failed.
    Origin(Result<BridgeInfo, String>),
    /// This contract's native balance, or why the query failed.
    Balance(Result<u128, String>),
}

/// What a purchase asks of the host next.
#[derive(Debug)]
pub enum PurchaseAction {
    /// Ask the registry whether the token is an approved bridge asset.
    QueryRegistry(QueryValidateWrappedTokenForTradeRequest),
    /// Ask the token contract for its origin.
    QueryOrigin { token_contract: String },
    /// Ask for this contract's balance of `denom`.
    QueryBalance { denom: String },
    /// Store `config` and hand `response` to the host: the purchase is settled.
    Commit { config: Config, response: Response },
    /// The purchase is declined; nothing is stored.
    Fail(ContractError),
}

/// The purchase may go on: the sale is not paused and the sender is the buyer.
pub open spec fn gate_passes(req: PurchaseRequest) -> bool {
    !req.config.is_paused && req.receive.sender@ == req.config.buyer@
}

/// The native units that the purchase buys.
pub open spec fn purchase_tokens(req: PurchaseRequest) -> u128 {
    tokens_for(req.receive.amount, req.config.price_usd)
}

/// The text of the error for a token that the registry does not approve.
pub open spec fn not_accepted_text(token: Seq<char>) -> Seq<char> {
    "CW20 "@ + token + " not approved for trading"@
}

/// `resp` settles the purchase: native units to the sender, the quote
/// tokens on to the admin when there is one, and the purchase attributes.
pub open spec fn settlement_response(req: PurchaseRequest, resp: Response) -> bool {
    let tokens = purchase_tokens(req);
    let forward = req.config.admin@.len() > 0;
    &&& resp.messages@.len() == if forward {
        2int
    } else {
        1int
    }
    &&& resp.messages@[0] == Instruction::BankSend {
        to_address: req.receive.sender,
        denom: req.config.native_denom,
        amount: tokens,
    }
    &&& forward ==> (resp.messages@[1] matches Instruction::WasmExecute { contract_addr, msg }
        && contract_addr == req.token_contract && msg@ == transfer_json(
        req.config.admin@,
        req.receive.amount,
    ))
    &&& attributes_are(
        resp.attributes@,
        seq![
            ("method"@, "purchase"@),
            ("buyer"@, req.receive.sender@),
            ("usdt_amount"@, decimal_of(req.receive.amount as nat)),
            ("gnk_purchased"@, decimal_of(tokens as nat)),
            ("price_usd"@, decimal_of(req.config.price_usd as nat)),
        ],
    )
}

/// The outcome of the last check, once the origin matched.
pub open spec fn after_origin(req: PurchaseRequest, r: (PurchaseStage, PurchaseAction)) -> bool {
    match req.payload {
        Err(e) => r.0.step() == PurchaseStep::Finished && r.1 == PurchaseAction::Fail(
            ContractError::Std(e),
        ),
        Ok(_) => if purchase_tokens(req) == 0 {
            r.0.step() == PurchaseStep::Finished && r.1 == PurchaseAction::Fail(
                ContractError::ZeroAmount {},
            )
        } else {
            r.0.step() == PurchaseStep::AwaitingBalance && r.1 == PurchaseAction::QueryBalance {
                denom: req.config.native_denom,
            }
        },
    }
}

/// The outcome once the balance is known.
pub open spec fn after_balance(req: PurchaseRequest, available: u128, r: (
    PurchaseStage,
    PurchaseAction,
)) -> bool {
    let tokens = purchase_tokens(req);
    &&& r.0.step() == PurchaseStep::Finished
    &&& if tokens > available {
        r.1 == PurchaseAction::Fail(
            ContractError::InsufficientBalance { available: available, needed: tokens },
        )
    } else if req.config.total_tokens_sold + tokens > u128::MAX {
        r.1 matches PurchaseAction::Fail(ContractError::Std(_))
    } else {
        r.1 matches PurchaseAction::Commit { config, response } && settles(
            req.config,
            config,
            tokens,
        ) && settlement_response(req, response)
    }
}

/// Takes a purchase one step further: from the stage it is in and what the
/// host reported, decides the next stage and what the host does next.
///
/// The checks come in this order, each declining the purchase when it
/// fails: the sale is not paused; the sender is the buyer; the registry
/// approves the token; the token reports the configured origin; the payload
/// decoded; the purchase buys at least one native unit; this contract holds
/// that much. A failed query declines with the query's error. A reply that
/// does not fit the stage declines as well.
pub fn receive_cw20(req: &PurchaseRequest, stage: PurchaseStage, reply: PurchaseReply) -> (r: (
    PurchaseStage,
    PurchaseAction,
))
    ensures
        req.config.is_paused ==> r.0.step() == PurchaseStep::Finished && r.1
            == PurchaseAction::Fail(ContractError::ContractPaused {}),
        !req.config.is_paused && req.receive.sender@ != req.config.buyer@ ==> r.0.step()
            == PurchaseStep::Finished && r.1 == PurchaseAction::Fail(
            ContractError::BuyerNotAllowed { buyer: req.receive.sender },
        ),
        gate_passes(*req) ==> match (stage.step(), reply) {
            (PurchaseStep::Start, PurchaseReply::Begin) => r.0.step()
                == PurchaseStep::AwaitingRegistry && (r.1 matches PurchaseAction::QueryRegistry(q)
                && q.contract_address@ == without_prefix(req.token_contract@, wrapped_prefix())),
            (PurchaseStep::AwaitingRegistry, PurchaseReply::Registry(Err(e))) => r.0.step()
                == PurchaseStep::Finished && r.1 == PurchaseAction::Fail(ContractError::Std(e)),
            (PurchaseStep::AwaitingRegistry, PurchaseReply::Registry(Ok(answer))) => if answer.is_valid {
                r.0.step() == PurchaseStep::AwaitingOrigin && r.1 == PurchaseAction::QueryOrigin {
                    token_contract: req.token_contract,
                }
            } else {
                r.0.step() == PurchaseStep::Finished && (r.1 matches PurchaseAction::Fail(
                    ContractError::TokenNotAccepted { token },
                ) && token@ == not_accepted_text(req.token_contract@))
            },
            (PurchaseStep::AwaitingOrigin, PurchaseReply::Origin(Err(e))) => r.0.step()
                == PurchaseStep::Finished && r.1 == PurchaseAction::Fail(ContractError::Std(e)),
            (PurchaseStep::AwaitingOrigin, PurchaseReply::Origin(Ok(reported))) => if origin_matches(
                req.config,
                reported,
            ) {
                after_origin(*req, r)
            } else {
                r.0.step() == PurchaseStep::Finished && (r.1 matches PurchaseAction::Fail(e)
                    && is_wrong_token(e, req.config, reported))
            },
            (PurchaseStep::AwaitingBalance, PurchaseReply::Balance(Err(e))) => r.0.step()
                == PurchaseStep::Finished && r.1 == PurchaseAction::Fail(ContractError::Std(e)),
            (PurchaseStep::AwaitingBalance, PurchaseReply::Balance(Ok(available))) => after_balance(
                *req,
                available,
                r,
            ),
            _ => r.0.step() == PurchaseStep::Finished && r.1 matches PurchaseAction::Fail(
                ContractError::Std(_),
            ),
        },
{
    let finished = PurchaseStage { step: PurchaseStep::Finished };
    if req.config.is_paused {
        return (finished, PurchaseAction::Fail(ContractError::ContractPaused {}));
    }
    if req.receive.sender != req.config.buyer {
        return (
            finished,
            PurchaseAction::Fail(ContractError::BuyerNotAllowed { buyer: req.receive.sender.clone() }),
        );
    }
    match (stage.step, reply) {
        (PurchaseStep::Start, PurchaseReply::Begin) => (
            PurchaseStage { step: PurchaseStep::AwaitingRegistry },
            PurchaseAction::QueryRegistry(trade_validation_request(req.token_contract.as_str())),
        ),
        (PurchaseStep::AwaitingRegistry, PurchaseReply::Registry(answer)) => match answer {
            Err(e) => (finished, PurchaseAction::Fail(ContractError::Std(e))),
            Ok(answer) => {
                if answer.is_valid {
                    (
                        PurchaseStage { step: PurchaseStep::AwaitingOrigin },
                        PurchaseAction::QueryOrigin { token_contract: req.token_contract.clone() },
                    )
                } else {
                    let mut token = String::from_str("CW20 ");
                    token.append(req.token_contract.as_str());
                    token.append(" not approved for trading");
                    (finished, PurchaseAction::Fail(ContractError::TokenNotAccepted { token }))
                }
            },
        },
        (PurchaseStep::AwaitingOrigin, PurchaseReply::Origin(reported)) => match reported {
            Err(e) => (finished, PurchaseAction::Fail(ContractError::Std(e))),
            Ok(reported) => match check_origin(&req.config, reported) {
                Err(e) => (finished, PurchaseAction::Fail(e)),
                Ok(()) => match &req.payload {
                    Err(e) => (finished, PurchaseAction::Fail(ContractError::Std(e.clone()))),
                    Ok(_) => {
                        let tokens = calculate_tokens_for_usd(
                            req.receive.amount,
                            req.config.price_usd,
                        );
                        if req.receive.amount == 0 || tokens == 0 {
                            (finished, PurchaseAction::Fail(ContractError::ZeroAmount {}))
                        } else {
                            (
                                PurchaseStage { step: PurchaseStep::AwaitingBalance },
                                PurchaseAction::QueryBalance {
                                    denom: req.config.native_denom.clone(),
                                },
                            )
                        }
                    },
                },
            },
        },
        (PurchaseStep::AwaitingBalance, PurchaseReply::Balance(available)) => match available {
            Err(e) => (finished, PurchaseAction::Fail(ContractError::Std(e))),
            Ok(available) => (finished, settle(req, available)),
        },
        _ => (
            finished,
            PurchaseAction::Fail(
                ContractError::Std(String::from_str("reply does not fit the purchase stage")),
            ),
        ),
    }
}

fn settle(req: &PurchaseRequest, available: u128) -> (a: PurchaseAction)
    ensures
        after_balance(*req, available, (PurchaseStage { step: PurchaseStep::Finished }, a)),
{
    let tokens = calculate_tokens_for_usd(req.receive.amount, req.config.price_usd);
    if tokens > available {
        return PurchaseAction::Fail(
            ContractError::InsufficientBalance { available: available, needed: tokens },
        );
    }
    let total = match req.config.total_tokens_sold.checked_add(tokens) {
        Some(total) => total,
        None => {
            return PurchaseAction::Fail(
                ContractError::Std(String::from_str("overflow: total tokens sold")),
            );
        },
    };
    let mut config = req.config.clone();
    config.total_tokens_sold = total;
    let mut messages: Vec<Instruction> = Vec::new();
    messages.push(
        Instruction::BankSend {
            to_address: req.receive.sender.clone(),
            denom: req.config.native_denom.clone(),
            amount: tokens,
        },
    );
    if req.config.admin.as_str().unicode_len() > 0 {
        messages.push(
            create_cw20_transfer_msg(
                req.token_contract.clone(),
                &req.config.admin,
                req.receive.amount,
            ),
        );
    }
    let mut attributes: Vec<Attribute> = Vec::new();
    attributes.push(attr("method", String::from_str("purchase")));
    attributes.push(attr("buyer", req.receive.sender.clone()));
    attributes.push(attr("usdt_amount", to_decimal(req.receive.amount)));
    attributes.push(attr("gnk_purchased", to_decimal(tokens)));
    attributes.push(attr("price_usd", to_decimal(req.config.price_usd)));
    assert(config == (Config { total_tokens_sold: config.total_tokens_sold, ..req.config }));
    PurchaseAction::Commit { config, response: Response { messages, attributes } }
}

} // verus!
