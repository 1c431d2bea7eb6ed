use community_sale::error::ContractError;
use community_sale::msg::{ConfigResponse, InstantiateMsg};
use community_sale::response::Response;
use community_sale::sale::{
    instantiate, pause_contract, query_calculate_tokens, query_config, resume_contract,
    update_buyer, update_price,
};
use community_sale::state::Config;
use cosmwasm_std::testing::MockApi;

fn mock_instantiate_msg(api: &MockApi) -> InstantiateMsg {
    InstantiateMsg {
        admin: api.addr_make("admin").to_string(),
        buyer: api.addr_make("buyer").to_string(),
        accepted_chain_id: "ethereum".to_string(),
        accepted_eth_contract: "0xdac17f958d2ee523a2206206994597c13d831ec7".to_string(),
        price_usd: 25000,
    }
}

fn instantiate_mock(api: &MockApi) -> (Config, Response) {
    let msg = mock_instantiate_msg(api);
    let admin = msg.admin.clone();
    let buyer = msg.buyer.clone();
    instantiate(msg, admin, buyer, None).unwrap()
}

fn config_of(config: &Config) -> ConfigResponse {
    query_config(config.clone())
}

#[test]
fn proper_instantiation() {
    let api = MockApi::default();
    let buyer_addr = api.addr_make("buyer").to_string();

    let (_, res) = instantiate_mock(&api);
    assert!(res.attributes.iter().any(|a| a.key == "buyer" && a.value == buyer_addr));
    assert!(res.attributes.iter().any(|a| a.key == "accepted_chain_id" && a.value == "ethereum"));
    assert!(res.attributes.iter().any(|a| a.key == "accepted_eth_contract"
        && a.value == "0xdac17f958d2ee523a2206206994597c13d831ec7"));
}

#[test]
fn test_pause_resume() {
    let api = MockApi::default();
    let admin_addr = api.addr_make("admin").to_string();
    let (config, _) = instantiate_mock(&api);

    let (config, _) = pause_contract(config, &admin_addr).unwrap();
    assert!(config_of(&config).is_paused);

    let (config, _) = resume_contract(config, &admin_addr).unwrap();
    assert!(!config_of(&config).is_paused);
}

#[test]
fn test_update_buyer() {
    let api = MockApi::default();
    let admin_addr = api.addr_make("admin").to_string();
    let new_buyer = api.addr_make("newbuyer").to_string();
    let (config, _) = instantiate_mock(&api);

    let (config, _) = update_buyer(config, &admin_addr, Ok(new_buyer.clone())).unwrap();
    assert_eq!(config_of(&config).buyer, new_buyer);
}

#[test]
fn test_update_price() {
    let api = MockApi::default();
    let admin_addr = api.addr_make("admin").to_string();
    let (config, _) = instantiate_mock(&api);

    let (config, _) = update_price(config, &admin_addr, 50000u128).unwrap();
    assert_eq!(config_of(&config).price_usd, 50000u128);
}

#[test]
fn test_calculate_tokens() {
    let api = MockApi::default();
    let (config, _) = instantiate_mock(&api);

    let usd_amount = 100_000_000u128;
    let response = query_calculate_tokens(&config, usd_amount);
    assert_eq!(response.tokens, 4_000_000_000_000u128);
    assert_eq!(response.price_usd, 25000u128);
}

#[test]
fn test_unauthorized_update() {
    let api = MockApi::default();
    let attacker = api.addr_make("attacker").to_string();
    let hacker = api.addr_make("hacker").to_string();
    let (config, _) = instantiate_mock(&api);

    let err = update_buyer(config, &attacker, Ok(hacker)).unwrap_err();
    assert!(matches!(err, ContractError::Unauthorized {}));
}
