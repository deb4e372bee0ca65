use cosmwasm_std::{CosmosMsg, WasmMsg};

use converter::convert::{convert_coin_to_cw20, convert_cw20_to_coin};
use converter::cosmos::plan_response;
use converter::state::DenomRegistry;

fn s(text: &str) -> String {
    text.to_string()
}

#[test]
fn forward_plan_becomes_a_tagged_response() {
    let mut registry = DenomRegistry::new();
    let plan = convert_cw20_to_coin(
        &mut registry,
        &s("C"),
        &s("S"),
        &s("T1"),
        &s("ALPHA"),
        100,
        &s("R"),
    )
    .unwrap();
    let response = plan_response(&plan);

    assert_eq!(response.attributes.len(), 4);
    assert_eq!(response.attributes[0].key, "action");
    assert_eq!(response.attributes[0].value, "convert_cw20_to_coin");
    assert_eq!(response.attributes[1].key, "sender");
    assert_eq!(response.attributes[1].value, "S");
    assert_eq!(response.attributes[2].key, "subdenom");
    assert_eq!(response.attributes[2].value, "ALPHA");
    assert_eq!(response.attributes[3].key, "amount");
    assert_eq!(response.attributes[3].value, "100");

    assert_eq!(response.messages.len(), 5);
    match &response.messages[0].msg {
        CosmosMsg::Stargate { type_url, .. } => {
            assert_eq!(type_url, "/osmosis.tokenfactory.v1beta1.MsgCreateDenom");
        }
        other => panic!("expected a create-denom message, got {:?}", other),
    }
    match &response.messages[1].msg {
        CosmosMsg::Wasm(WasmMsg::Execute { contract_addr, msg, funds }) => {
            assert_eq!(contract_addr, "T1");
            assert!(funds.is_empty());
            let text = String::from_utf8(msg.to_vec()).unwrap();
            assert!(text.contains("increase_allowance"));
            assert!(text.contains("\"100\""));
        }
        other => panic!("expected a cw20 allowance call, got {:?}", other),
    }
    match &response.messages[2].msg {
        CosmosMsg::Wasm(WasmMsg::Execute { contract_addr, msg, .. }) => {
            assert_eq!(contract_addr, "T1");
            let text = String::from_utf8(msg.to_vec()).unwrap();
            assert!(text.contains("transfer_from"));
        }
        other => panic!("expected a cw20 pull, got {:?}", other),
    }
    match &response.messages[3].msg {
        CosmosMsg::Stargate { type_url, .. } => {
            assert_eq!(type_url, "/osmosis.tokenfactory.v1beta1.MsgMint");
        }
        other => panic!("expected a mint message, got {:?}", other),
    }
    match &response.messages[4].msg {
        CosmosMsg::Stargate { type_url, .. } => {
            assert_eq!(type_url, "/cosmos.bank.v1beta1.MsgSend");
        }
        other => panic!("expected a bank send, got {:?}", other),
    }
}

#[test]
fn backward_plan_becomes_a_tagged_response() {
    let mut registry = DenomRegistry::new();
    convert_cw20_to_coin(&mut registry, &s("C"), &s("S"), &s("T1"), &s("ALPHA"), 100, &s("R"))
        .unwrap();
    let plan = convert_coin_to_cw20(
        &registry,
        &s("C"),
        &s("S"),
        &s("T1"),
        &s("ALPHA"),
        40,
        &s("R"),
    )
    .unwrap();
    let response = plan_response(&plan);

    assert_eq!(response.attributes[0].value, "convert_coin_to_cw20");
    assert_eq!(response.attributes[3].value, "40");

    assert_eq!(response.messages.len(), 3);
    match &response.messages[0].msg {
        CosmosMsg::Stargate { type_url, .. } => {
            assert_eq!(type_url, "/cosmos.authz.v1beta1.MsgExec");
        }
        other => panic!("expected a delegated execution, got {:?}", other),
    }
    match &response.messages[1].msg {
        CosmosMsg::Stargate { type_url, .. } => {
            assert_eq!(type_url, "/osmosis.tokenfactory.v1beta1.MsgBurn");
        }
        other => panic!("expected a burn message, got {:?}", other),
    }
    match &response.messages[2].msg {
        CosmosMsg::Wasm(WasmMsg::Execute { contract_addr, msg, .. }) => {
            assert_eq!(contract_addr, "T1");
            let text = String::from_utf8(msg.to_vec()).unwrap();
            assert!(text.contains("transfer"));
            assert!(text.contains("\"R\""));
        }
        other => panic!("expected a cw20 release, got {:?}", other),
    }
}
