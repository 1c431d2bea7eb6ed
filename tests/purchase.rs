use community_sale::bridge::BridgeInfo;
use community_sale::error::ContractError;
use community_sale::msg::{Cw20ReceiveMsg, PurchaseTokenMsg};
use community_sale::proto::QueryValidateWrappedTokenForTradeResponse;
use community_sale::purchase::{
    create_cw20_transfer_msg, receive_cw20, PurchaseAction, PurchaseReply, PurchaseRequest,
    PurchaseStage,
};
use community_sale::response::Instruction;
use community_sale::state::Config;

const TOKEN: &str = "wrapped-usdt-contract";
const USDT: &str = "0xdac17f958d2ee523a2206206994597c13d831ec7";

fn config() -> Config {
    Config {
        admin: "admin".to_string(),
        buyer: "buyer".to_string(),
        accepted_chain_id: "ethereum".to_string(),
        accepted_eth_contract: USDT.to_string(),
        price_usd: 25000,
        native_denom: "ngonka".to_string(),
        is_paused: false,
        total_tokens_sold: 0,
    }
}

fn request(config: Config, sender: &str, amount: u128) -> PurchaseRequest {
    PurchaseRequest {
        config,
        token_contract: TOKEN.to_string(),
        receive: Cw20ReceiveMsg { sender: sender.to_string(), amount, msg: b"{}".to_vec() },
        payload: Ok(PurchaseTokenMsg {}),
    }
}

fn origin(chain: &str, contract: &str) -> PurchaseReply {
    PurchaseReply::Origin(Ok(BridgeInfo {
        chain_id: chain.to_string(),
        contract_address: contract.to_string(),
    }))
}

fn registry(valid: bool) -> PurchaseReply {
    PurchaseReply::Registry(Ok(QueryValidateWrappedTokenForTradeResponse { is_valid: valid }))
}

/// Runs a purchase with the given host replies and returns its last action.
fn run(req: &PurchaseRequest, replies: Vec<PurchaseReply>) -> (PurchaseAction, usize) {
    let mut stage = PurchaseStage::start();
    let mut steps = 0;
    let mut action = None;
    for reply in std::iter::once(PurchaseReply::Begin).chain(replies) {
        assert!(!stage.is_finished());
        let (next, a) = receive_cw20(req, stage, reply);
        steps += 1;
        stage = next;
        action = Some(a);
        if stage.is_finished() {
            break;
        }
    }
    (action.unwrap(), steps)
}

fn happy_replies(balance: u128) -> Vec<PurchaseReply> {
    vec![registry(true), origin("ethereum", USDT), PurchaseReply::Balance(Ok(balance))]
}

#[test]
fn purchase_settles_both_legs() {
    let req = request(config(), "buyer", 100_000_000);
    let (action, steps) = run(&req, happy_replies(10_000_000_000_000));
    assert_eq!(steps, 4);
    match action {
        PurchaseAction::Commit { config, response } => {
            assert_eq!(config.total_tokens_sold, 4_000_000_000_000);
            assert_eq!(response.messages.len(), 2);
            assert_eq!(
                response.messages[0],
                Instruction::BankSend {
                    to_address: "buyer".to_string(),
                    denom: "ngonka".to_string(),
                    amount: 4_000_000_000_000,
                }
            );
            assert_eq!(
                response.messages[1],
                Instruction::WasmExecute {
                    contract_addr: TOKEN.to_string(),
                    msg: "{\"transfer\":{\"recipient\":\"admin\",\"amount\":\"100000000\"}}"
                        .to_string(),
                }
            );
            let pairs: Vec<(String, String)> = response
                .attributes
                .iter()
                .map(|a| (a.key.clone(), a.value.clone()))
                .collect();
            assert_eq!(
                pairs,
                vec![
                    ("method".to_string(), "purchase".to_string()),
                    ("buyer".to_string(), "buyer".to_string()),
                    ("usdt_amount".to_string(), "100000000".to_string()),
                    ("gnk_purchased".to_string(), "4000000000000".to_string()),
                    ("price_usd".to_string(), "25000".to_string()),
                ]
            );
        }
        other => panic!("expected a settlement, got {:?}", other),
    }
}

#[test]
fn purchase_without_admin_pays_out_only() {
    let mut c = config();
    c.admin = String::new();
    let req = request(c, "buyer", 100_000_000);
    match run(&req, happy_replies(4_000_000_000_000)).0 {
        PurchaseAction::Commit { response, .. } => assert_eq!(response.messages.len(), 1),
        other => panic!("expected a settlement, got {:?}", other),
    }
}

#[test]
fn purchase_strips_scheme_prefix_for_registry() {
    let mut req = request(config(), "buyer", 100_000_000);
    req.token_contract = "wrapped:contract1".to_string();
    let (_, action) = receive_cw20(&req, PurchaseStage::start(), PurchaseReply::Begin);
    match action {
        PurchaseAction::QueryRegistry(q) => assert_eq!(q.contract_address, "contract1"),
        other => panic!("expected a registry query, got {:?}", other),
    }
}

#[test]
fn zero_amount_is_declined() {
    let req = request(config(), "buyer", 0);
    let (action, steps) = run(&req, happy_replies(10_000_000_000_000));
    assert_eq!(steps, 3);
    assert!(matches!(action, PurchaseAction::Fail(ContractError::ZeroAmount {})));
}

#[test]
fn payout_rounding_to_zero_is_declined() {
    let mut c = config();
    c.price_usd = 1_000_000_000_000_000;
    let req = request(c, "buyer", 1);
    let (action, _) = run(&req, happy_replies(10));
    assert!(matches!(action, PurchaseAction::Fail(ContractError::ZeroAmount {})));
}

#[test]
fn stranger_is_not_allowed() {
    let req = request(config(), "stranger", 100_000_000);
    let (action, steps) = run(&req, happy_replies(10_000_000_000_000));
    assert_eq!(steps, 1);
    match action {
        PurchaseAction::Fail(ContractError::BuyerNotAllowed { buyer }) => assert_eq!(buyer, "stranger"),
        other => panic!("expected BuyerNotAllowed, got {:?}", other),
    }
}

#[test]
fn paused_sale_declines_every_step() {
    let mut c = config();
    c.is_paused = true;
    let req = request(c, "buyer", 100_000_000);
    let (action, steps) = run(&req, happy_replies(10_000_000_000_000));
    assert_eq!(steps, 1);
    assert!(matches!(action, PurchaseAction::Fail(ContractError::ContractPaused {})));
}

#[test]
fn registry_refusal_stops_before_origin() {
    let req = request(config(), "buyer", 100_000_000);
    let (action, steps) = run(&req, vec![registry(false), origin("ethereum", USDT)]);
    assert_eq!(steps, 2);
    match action {
        PurchaseAction::Fail(ContractError::TokenNotAccepted { token }) => {
            assert_eq!(token, format!("CW20 {} not approved for trading", TOKEN))
        }
        other => panic!("expected TokenNotAccepted, got {:?}", other),
    }
}

#[test]
fn registry_query_failure_is_generic() {
    let req = request(config(), "buyer", 100_000_000);
    let (action, _) = run(&req, vec![PurchaseReply::Registry(Err("down".to_string()))]);
    assert_eq!(action_error(action), ContractError::Std("down".to_string()));
}

fn action_error(action: PurchaseAction) -> ContractError {
    match action {
        PurchaseAction::Fail(e) => e,
        other => panic!("expected a failure, got {:?}", other),
    }
}

#[test]
fn wrong_origin_chain_reports_both_pairs() {
    let req = request(config(), "buyer", 100_000_000);
    let (action, steps) = run(&req, vec![registry(true), origin("polygon", USDT)]);
    assert_eq!(steps, 3);
    assert_eq!(
        action_error(action),
        ContractError::WrongToken {
            expected_chain: "ethereum".to_string(),
            expected_contract: USDT.to_string(),
            got_chain: "polygon".to_string(),
            got_contract: USDT.to_string(),
        }
    );
}

#[test]
fn wrong_origin_contract_is_reported_lowercased() {
    let req = request(config(), "buyer", 100_000_000);
    let (action, _) = run(&req, vec![registry(true), origin("ethereum", "0xABCDEF")]);
    assert_eq!(
        action_error(action),
        ContractError::WrongToken {
            expected_chain: "ethereum".to_string(),
            expected_contract: USDT.to_string(),
            got_chain: "ethereum".to_string(),
            got_contract: "0xabcdef".to_string(),
        }
    );
}

#[test]
fn origin_contract_compares_case_insensitively() {
    let req = request(config(), "buyer", 100_000_000);
    let upper = "0xDAC17F958D2EE523A2206206994597C13D831EC7";
    let replies = vec![registry(true), origin("ethereum", upper), PurchaseReply::Balance(Ok(u128::MAX))];
    assert!(matches!(run(&req, replies).0, PurchaseAction::Commit { .. }));
}

#[test]
fn malformed_payload_is_declined_after_origin() {
    let mut req = request(config(), "buyer", 100_000_000);
    req.payload = Err("Error parsing into type PurchaseTokenMsg".to_string());
    let (action, steps) = run(&req, happy_replies(10_000_000_000_000));
    assert_eq!(steps, 3);
    assert_eq!(
        action_error(action),
        ContractError::Std("Error parsing into type PurchaseTokenMsg".to_string())
    );
}

#[test]
fn insufficient_balance_reports_amounts() {
    let req = request(config(), "buyer", 100_000_000);
    let (action, steps) = run(&req, happy_replies(3_999_999_999_999));
    assert_eq!(steps, 4);
    assert_eq!(
        action_error(action),
        ContractError::InsufficientBalance { available: 3_999_999_999_999, needed: 4_000_000_000_000 }
    );
}

#[test]
fn total_sold_overflow_is_declined() {
    let mut c = config();
    c.total_tokens_sold = u128::MAX;
    let req = request(c, "buyer", 100_000_000);
    let (action, _) = run(&req, happy_replies(u128::MAX));
    assert!(matches!(action, PurchaseAction::Fail(ContractError::Std(_))));
}

#[test]
fn total_sold_is_sum_of_purchases() {
    let mut c = config();
    for (amount, expected_total) in [(100_000_000u128, 4_000_000_000_000u128), (25_000, 4_001_000_000_000)] {
        let req = request(c, "buyer", amount);
        match run(&req, happy_replies(u128::MAX)).0 {
            PurchaseAction::Commit { config, .. } => {
                assert_eq!(config.total_tokens_sold, expected_total);
                c = config;
            }
            other => panic!("expected a settlement, got {:?}", other),
        }
    }
}

#[test]
fn out_of_order_reply_is_declined() {
    let req = request(config(), "buyer", 100_000_000);
    let (stage, action) = receive_cw20(&req, PurchaseStage::start(), PurchaseReply::Balance(Ok(1)));
    assert!(stage.is_finished());
    assert!(matches!(action, PurchaseAction::Fail(ContractError::Std(_))));
}

#[test]
fn transfer_message_is_json() {
    match create_cw20_transfer_msg("token".to_string(), &"admin1".to_string(), 42) {
        Instruction::WasmExecute { contract_addr, msg } => {
            assert_eq!(contract_addr, "token");
            assert_eq!(msg, r#"{"transfer":{"recipient":"admin1","amount":"42"}}"#);
        }
        other => panic!("expected a contract call, got {:?}", other),
    }
}
