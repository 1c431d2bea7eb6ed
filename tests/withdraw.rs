use community_sale::error::ContractError;
use community_sale::response::{Attribute, Instruction, Response};
use community_sale::wrapped::{
    check_migration_source, initial_admin, token_info, update_metadata, withdraw, TokenInfoResponse,
    TokenMetadataOverride, WithdrawAction, WithdrawReply, WithdrawRequest, WithdrawStage,
};

fn request(amount: u128, destination: &str) -> WithdrawRequest {
    WithdrawRequest {
        contract_address: "wrapped-contract".to_string(),
        caller: "holder".to_string(),
        amount,
        destination_address: destination.to_string(),
    }
}

fn burn_response() -> Response {
    Response {
        messages: vec![],
        attributes: vec![Attribute { key: "action".into(), value: "burn".into() }],
    }
}

#[test]
fn blank_destination_fails_before_burn() {
    for dest in ["", "   ", "\t\n"] {
        let (stage, action) = withdraw(&request(500, dest), WithdrawStage::start(), WithdrawReply::Begin);
        assert!(stage.is_finished());
        assert!(matches!(action, WithdrawAction::Fail(ContractError::Std(_))));
    }
}

#[test]
fn zero_withdrawal_is_insufficient_funds() {
    let (_, action) = withdraw(&request(0, "0xdest"), WithdrawStage::start(), WithdrawReply::Begin);
    assert!(matches!(
        action,
        WithdrawAction::Fail(ContractError::InsufficientFunds { balance: 0, required: 1 })
    ));
}

#[test]
fn withdrawal_burns_then_emits_one_instruction() {
    let req = request(500, "0xdest");
    let (stage, action) = withdraw(&req, WithdrawStage::start(), WithdrawReply::Begin);
    assert!(!stage.is_finished());
    assert!(matches!(action, WithdrawAction::Burn { amount: 500 }));
    let (stage, action) = withdraw(&req, stage, WithdrawReply::Burned(Ok(burn_response())));
    assert!(stage.is_finished());
    let resp = match action {
        WithdrawAction::Emit(resp) => resp,
        other => panic!("expected an emission, got {:?}", other),
    };
    assert_eq!(resp.messages.len(), 1);
    match &resp.messages[0] {
        Instruction::BridgeWithdrawal { type_url, withdrawal } => {
            assert_eq!(type_url, "/inference.inference.MsgRequestBridgeWithdrawal");
            assert_eq!(withdrawal.creator, "wrapped-contract");
            assert_eq!(withdrawal.user_address, "holder");
            assert_eq!(withdrawal.amount, "500");
            assert_eq!(withdrawal.destination_address, "0xdest");
        }
        other => panic!("expected a withdrawal, got {:?}", other),
    }
    let keys: Vec<&str> = resp.attributes.iter().map(|a| a.key.as_str()).collect();
    assert_eq!(keys, vec!["action", "method", "burn_amount", "destination_address"]);
    assert_eq!(resp.attributes[2].value, "500");
}

#[test]
fn failed_burn_emits_nothing() {
    let req = request(500, "0xdest");
    let (stage, _) = withdraw(&req, WithdrawStage::start(), WithdrawReply::Begin);
    let (_, action) = withdraw(&req, stage, WithdrawReply::Burned(Err("Overflow".to_string())));
    assert!(matches!(action, WithdrawAction::Fail(ContractError::Std(e)) if e == "Overflow"));
}

#[test]
fn metadata_override_by_creator_or_admin() {
    let (creator, admin) = ("creator".to_string(), "admin".to_string());
    for sender in [&creator, &admin] {
        let (m, resp) = update_metadata(&creator, &admin, sender, "Name".into(), "SYM".into(), 18).unwrap();
        assert_eq!(m, TokenMetadataOverride { name: "Name".into(), symbol: "SYM".into(), decimals: 18 });
        assert_eq!(resp.attributes[3].value, "18");
    }
    let err = update_metadata(&creator, &admin, &"other".to_string(), "N".into(), "S".into(), 6).unwrap_err();
    assert_eq!(err, ContractError::Unauthorized {});
}

#[test]
fn token_info_applies_override() {
    let base = TokenInfoResponse { name: "Wrapped Token".into(), symbol: "WTKN".into(), decimals: 6, total_supply: 9 };
    let m = TokenMetadataOverride { name: "Tether".into(), symbol: "USDT".into(), decimals: 6 };
    let info = token_info(base.clone(), Some(m));
    assert_eq!(info.name, "Tether");
    assert_eq!(info.total_supply, 9);
    assert_eq!(token_info(base.clone(), None), base);
}

#[test]
fn initial_admin_precedence() {
    assert_eq!(initial_admin(Some(Ok("a".into())), Some("b".into()), "c".into()), Ok("a".to_string()));
    assert_eq!(
        initial_admin(Some(Err("bad".into())), Some("b".into()), "c".into()),
        Err(ContractError::Std("bad".to_string()))
    );
    assert_eq!(initial_admin(None, Some("b".into()), "c".into()), Ok("b".to_string()));
    assert_eq!(initial_admin(None, None, "c".into()), Ok("c".to_string()));
}

#[test]
fn migration_only_from_known_contracts() {
    assert!(check_migration_source(&"wrapped-token".to_string()).is_ok());
    assert!(check_migration_source(&"crates.io:cw20-base".to_string()).is_ok());
    assert!(matches!(check_migration_source(&"other".to_string()), Err(ContractError::Std(_))));
}
