use vstd::prelude::*;
use vstd::string::*;

use crate::error::ContractError;
use crate::proto::MsgRequestBridgeWithdrawal;
use crate::response::{attr, attributes_are, attributes_extend, Attribute, Instruction, Response};
use crate::text::{decimal_of, is_blank, is_blank_text, to_decimal};

verus! {

/// Name, symbol and decimals that replace those of the token ledger.
#[derive(Debug, Clone, PartialEq, Eq)]
pub struct TokenMetadataOverride {
    pub name: String,
    pub symbol: String,
    pub decimals: u8,
}

/// What the token reports of itself.
#[derive(Debug, Clone, PartialEq, Eq)]
pub struct TokenInfoResponse {
    pub name: String,
    pub symbol: String,
    pub decimals: u8,
    pub total_supply: u128,
}

/// The origin of the wrapped asset, set once when it is created.
#[derive(Debug, Clone, PartialEq, Eq)]
pub struct BridgeInfoResponse {
    pub chain_id: String,
    pub contract_address: String,
}

/// The admin of a new wrapped asset: the one named in its instantiation
/// message (as validated by the host), else the admin that the chain
/// records for the contract, else the instantiating sender. `contract_admin`
/// is `None` where the chain records none or could not be asked.
pub fn initial_admin(
    msg_admin: Option<Result<String, String>>,
    contract_admin: Option<String>,
    sender: String,
) -> (r: Result<String, ContractError>)
    ensures
        match msg_admin {
            Some(Ok(a)) => r == Ok::<String, ContractError>(a),
            Some(Err(e)) => r == Err::<String, ContractError>(ContractError::Std(e)),
            None => match contract_admin {
                Some(a) => r == Ok::<String, ContractError>(a),
                None => r == Ok::<String, ContractError>(sender),
            },
        },
{
    match msg_admin {
        Some(Ok(a)) => Ok(a),
        Some(Err(e)) => Err(ContractError::Std(e)),
        None => match contract_admin {
            Some(a) => Ok(a),
            None => Ok(sender),
        },
    }
}

/// Either authority of the wrapped asset, its creator or its admin, may
/// override its metadata.
pub fn update_metadata(
    creator: &String,
    admin: &String,
    sender: &String,
    name: String,
    symbol: String,
    decimals: u8,
) -> (r: Result<(TokenMetadataOverride, Response), ContractError>)
    ensures
        r is Ok <==> (sender@ == creator@ || sender@ == admin@),
        !(r is Ok) ==> r == Err::<(TokenMetadataOverride, Response), _>(
            ContractError::Unauthorized {},
        ),
        r matches Ok((m, resp)) ==> m == (TokenMetadataOverride { name, symbol, decimals })
            && resp.messages@.len() == 0 && attributes_are(
            resp.attributes@,
            seq![
                ("method"@, "update_metadata"@),
                ("name"@, name@),
                ("symbol"@, symbol@),
                ("decimals"@, decimal_of(decimals as nat)),
            ],
        ),
{
    let is_creator = *sender == *creator;
    let is_admin = *sender == *admin;
    if !is_creator && !is_admin {
        return Err(ContractError::Unauthorized {});
    }
    let mut attributes: Vec<Attribute> = Vec::new();
    attributes.push(attr("method", String::from_str("update_metadata")));
    attributes.push(attr("name", name.clone()));
    attributes.push(attr("symbol", symbol.clone()));
    attributes.push(attr("decimals", to_decimal(decimals as u128)));
    Ok((TokenMetadataOverride { name, symbol, decimals }, Response { messages: Vec::new(), attributes }))
}

/// The token's self-report: the ledger's, with name, symbol and decimals
/// replaced when an override is stored.
pub fn token_info(base: TokenInfoResponse, metadata: Option<TokenMetadataOverride>) -> (r:
    TokenInfoResponse)
    ensures
        match metadata {
            Some(m) => r == (TokenInfoResponse {
                name: m.name,
                symbol: m.symbol,
                decimals: m.decimals,
                total_supply: base.total_supply,
            }),
            None => r == base,
        },
{
    match metadata {
        Some(m) => TokenInfoResponse {
            name: m.name,
            symbol: m.symbol,
            decimals: m.decimals,
            total_supply: base.total_supply,
        },
        None => base,
    }
}

/// The contract names that a wrapped asset may be migrated from.
pub open spec fn migratable_from(old_contract: Seq<char>) -> bool {
    old_contract == "wrapped-token"@ || old_contract == "crates.io:cw20-base"@
}

/// Checks the contract name recorded before a migration.
pub fn check_migration_source(old_contract: &String) -> (r: Result<(), ContractError>)
    ensures
        r is Ok <==> migratable_from(old_contract@),
        !(r is Ok) ==> r matches Err(ContractError::Std(_)),
{
    let ours = String::from_str("wrapped-token");
    let legacy = String::from_str("crates.io:cw20-base");
    if *old_contract == ours || *old_contract == legacy {
        Ok(())
    } else {
        let mut text = String::from_str(
            "wrong contract: expected wrapped-token or crates.io:cw20-base, got ",
        );
        text.append(old_contract.as_str());
        Err(ContractError::Std(text))
    }
}

/// The type URL of the bridge module's withdrawal entry point.
pub open spec fn withdrawal_type_url() -> Seq<char> {
    "/inference.inference.MsgRequestBridgeWithdrawal"@
}

/// The cross-chain withdrawal instruction with the given fields.
pub fn create_bridge_withdrawal_msg(
    creator: String,
    user_address: String,
    amount: String,
    destination_address: String,
) -> (m: Instruction)
    ensures
        m matches Instruction::BridgeWithdrawal { type_url, withdrawal } && type_url@
            == withdrawal_type_url() && withdrawal == (MsgRequestBridgeWithdrawal {
            creator,
            user_address,
            amount,
            destination_address,
        }),
{
    Instruction::BridgeWithdrawal {
        type_url: String::from_str("/inference.inference.MsgRequestBridgeWithdrawal"),
        withdrawal: MsgRequestBridgeWithdrawal { creator, user_address, amount, destination_address },
    }
}

/// One withdrawal: this contract's address, the caller whose funds are
/// burned, the amount and the destination on the origin chain.
#[derive(Debug, Clone, PartialEq, Eq)]
pub struct WithdrawRequest {
    pub contract_address: String,
    pub caller: String,
    pub amount: u128,
    pub destination_address: String,
}

/// Where a withdrawal stands.
#[derive(Debug, Clone, Copy, PartialEq, Eq)]
pub enum WithdrawStep {
    Start,
    AwaitingBurn,
    Finished,
}

/// The progress of one withdrawal; only this module makes stages.
#[derive(Debug)]
pub struct WithdrawStage {
    step: WithdrawStep,
}

impl WithdrawStage {
    pub closed spec fn step(&self) -> WithdrawStep {
        self.step
    }

    /// The stage before anything is checked.
    pub fn start() -> (s: WithdrawStage)
        ensures
            s.step() == WithdrawStep::Start,
    {
        WithdrawStage { step: WithdrawStep::Start }
    }

    /// Whether the withdrawal has ended, issued or declined.
    pub fn is_finished(&self) -> (r: bool)
        ensures
            r == (self.step() == WithdrawStep::Finished),
    {
        match self.step {
            WithdrawStep::Finished => true,
            _ => false,
        }
    }
}

/// What the host reports back to a withdrawal.
#[derive(Debug)]
pub enum WithdrawReply {
    /// Nothing yet: the withdrawal begins.
    Begin,
    /// The token ledger's response to the burn, or its error.
    Burned(Result<Response, String>),
}

/// What a withdrawal asks of the host next.
#[derive(Debug)]
pub enum WithdrawAction {
    /// Burn `amount` from the caller's balance in the token ledger.
    Burn { amount: u128 },
    /// Hand `response` to the host: the withdrawal is issued.
    Emit(Response),
    /// The withdrawal is declined.
    Fail(ContractError),
}

/// The withdrawal instruction for `req`.
pub open spec fn withdrawal_of(req: WithdrawRequest, m: Instruction) -> bool {
    m matches Instruction::BridgeWithdrawal { type_url, withdrawal } && type_url@
        == withdrawal_type_url() && withdrawal.creator == req.contract_address
        && withdrawal.user_address == req.caller && withdrawal.amount@ == decimal_of(
        req.amount as nat,
    ) && withdrawal.destination_address == req.destination_address
}

/// `resp` is the ledger's burn response `burned` with the withdrawal
/// instruction and the withdrawal attributes added.
pub open spec fn issued(req: WithdrawRequest, burned: Response, resp: Response) -> bool {
    &&& resp.messages@.len() == burned.messages@.len() + 1
    &&& resp.messages@.subrange(0, burned.messages@.len() as int) == burned.messages@
    &&& withdrawal_of(req, resp.messages@.last())
    &&& attributes_extend(
        resp.attributes@,
        burned.attributes@,
        seq![
            ("method"@, "withdraw"@),
            ("burn_amount"@, decimal_of(req.amount as nat)),
            ("destination_address"@, req.destination_address@),
        ],
    )
}

/// Takes a withdrawal one step further. The amount must not be zero and
/// the destination must not be blank; then the burn comes first, and only
/// a burn that succeeded is followed by the withdrawal instruction.
pub fn withdraw(req: &WithdrawRequest, stage: WithdrawStage, reply: WithdrawReply) -> (r: (
    WithdrawStage,
    WithdrawAction,
))
    ensures
        match (stage.step(), reply) {
            (WithdrawStep::Start, WithdrawReply::Begin) => if req.amount == 0 {
                r.0.step() == WithdrawStep::Finished && r.1 == WithdrawAction::Fail(
                    ContractError::InsufficientFunds { balance: 0, required: 1 },
                )
            } else if is_blank_text(req.destination_address@) {
                r.0.step() == WithdrawStep::Finished && (r.1 matches WithdrawAction::Fail(
                    ContractError::Std(_),
                ))
            } else {
                r.0.step() == WithdrawStep::AwaitingBurn && r.1 == WithdrawAction::Burn {
                    amount: req.amount,
                }
            },
            (WithdrawStep::AwaitingBurn, WithdrawReply::Burned(Err(e))) => r.0.step()
                == WithdrawStep::Finished && r.1 == WithdrawAction::Fail(ContractError::Std(e)),
            (WithdrawStep::AwaitingBurn, WithdrawReply::Burned(Ok(burned))) => r.0.step()
                == WithdrawStep::Finished && (r.1 matches WithdrawAction::Emit(resp) && issued(
                *req,
                burned,
                resp,
            )),
            _ => r.0.step() == WithdrawStep::Finished && (r.1 matches WithdrawAction::Fail(
                ContractError::Std(_),
            )),
        },
{
    let finished = WithdrawStage { step: WithdrawStep::Finished };
    match (stage.step, reply) {
        (WithdrawStep::Start, WithdrawReply::Begin) => {
            if req.amount == 0 {
                return (
                    finished,
                    WithdrawAction::Fail(ContractError::InsufficientFunds { balance: 0, required: 1 }),
                );
            }
            if is_blank(req.destination_address.as_str()) {
                return (
                    finished,
                    WithdrawAction::Fail(
                        ContractError::Std(String::from_str("destination_address cannot be empty")),
                    ),
                );
            }
            (WithdrawStage { step: WithdrawStep::AwaitingBurn }, WithdrawAction::Burn { amount: req.amount })
        },
        (WithdrawStep::AwaitingBurn, WithdrawReply::Burned(burned)) => match burned {
            Err(e) => (finished, WithdrawAction::Fail(ContractError::Std(e))),
            Ok(burned) => {
                let ghost before = burned;
                let mut resp = burned;
                let msg = create_bridge_withdrawal_msg(
                    req.contract_address.clone(),
                    req.caller.clone(),
                    to_decimal(req.amount),
                    req.destination_address.clone(),
                );
                resp.messages.push(msg);
                resp.attributes.push(attr("method", String::from_str("withdraw")));
                resp.attributes.push(attr("burn_amount", to_decimal(req.amount)));
                resp.attributes.push(attr("destination_address", req.destination_address.clone()));
                assert(resp.messages@.subrange(0, before.messages@.len() as int) =~= before.messages@);
                assert(resp.attributes@.subrange(0, before.attributes@.len() as int)
                    =~= before.attributes@);
                (finished, WithdrawAction::Emit(resp))
            },
        },
        _ => (
            finished,
            WithdrawAction::Fail(
                ContractError::Std(String::from_str("reply does not fit the withdrawal stage")),
            ),
        ),
    }
}

} // verus!
