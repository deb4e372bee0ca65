use converter::convert::{
    convert_coin_to_cw20, convert_cw20_to_coin, execute, factory_denom_string,
};
use converter::error::ContractError;
use converter::msg::ExecuteMsg;
use converter::plan::Instruction;
use converter::state::{Denom, DenomRegistry};

fn s(text: &str) -> String {
    text.to_string()
}

#[test]
fn first_conversion_creates_binding_and_plans_full_batch() {
    let mut registry = DenomRegistry::new();
    let plan = convert_cw20_to_coin(
        &mut registry,
        &s("C"),
        &s("S"),
        &s("T1"),
        &s("ALPHA"),
        100,
        &s("R"),
    )
    .unwrap();

    assert_eq!(plan.instructions.len(), 5);
    match &plan.instructions[0] {
        Instruction::CreateDenom { sender, subdenom } => {
            assert_eq!(sender, "C");
            assert_eq!(subdenom, "ALPHA");
        }
        other => panic!("expected CreateDenom, got {:?}", other),
    }
    match &plan.instructions[1] {
        Instruction::IncreaseAllowance { contract, spender, amount } => {
            assert_eq!(contract, "T1");
            assert_eq!(spender, "C");
            assert_eq!(*amount, 100);
        }
        other => panic!("expected IncreaseAllowance, got {:?}", other),
    }
    match &plan.instructions[2] {
        Instruction::TransferFrom { contract, owner, recipient, amount } => {
            assert_eq!(contract, "T1");
            assert_eq!(owner, "S");
            assert_eq!(recipient, "C");
            assert_eq!(*amount, 100);
        }
        other => panic!("expected TransferFrom, got {:?}", other),
    }
    match &plan.instructions[3] {
        Instruction::Mint { sender, denom, amount } => {
            assert_eq!(sender, "C");
            assert_eq!(denom, "factory/C/ALPHA");
            assert_eq!(*amount, 100);
        }
        other => panic!("expected Mint, got {:?}", other),
    }
    match &plan.instructions[4] {
        Instruction::Send { from, to, denom, amount } => {
            assert_eq!(from, "C");
            assert_eq!(to, "R");
            assert_eq!(denom, "factory/C/ALPHA");
            assert_eq!(*amount, 100);
        }
        other => panic!("expected Send, got {:?}", other),
    }

    assert_eq!(plan.attributes.action, "convert_cw20_to_coin");
    assert_eq!(plan.attributes.sender, "S");
    assert_eq!(plan.attributes.subdenom, "ALPHA");
    assert_eq!(plan.attributes.amount, 100);

    let record = registry.lookup(&s("ALPHA")).unwrap();
    assert_eq!(record.token, "T1");
    assert_eq!(record.denom, "ALPHA");
}

#[test]
fn repeat_conversion_creates_nothing_and_reuses_binding() {
    let mut registry = DenomRegistry::new();
    convert_cw20_to_coin(&mut registry, &s("C"), &s("S"), &s("T1"), &s("ALPHA"), 100, &s("R"))
        .unwrap();
    let plan = convert_cw20_to_coin(
        &mut registry,
        &s("C"),
        &s("S"),
        &s("T1"),
        &s("ALPHA"),
        50,
        &s("R"),
    )
    .unwrap();

    assert_eq!(plan.instructions.len(), 4);
    for instruction in &plan.instructions {
        assert!(!matches!(instruction, Instruction::CreateDenom { .. }));
    }
    match &plan.instructions[2] {
        Instruction::Mint { denom, amount, .. } => {
            assert_eq!(denom, "factory/C/ALPHA");
            assert_eq!(*amount, 50);
        }
        other => panic!("expected Mint, got {:?}", other),
    }

    let record = registry.lookup(&s("ALPHA")).unwrap();
    assert_eq!(record.token, "T1");
    assert_eq!(record.denom, "ALPHA");
}

#[test]
fn zero_amount_rejected_in_both_directions() {
    let mut registry = DenomRegistry::new();
    let forward = convert_cw20_to_coin(
        &mut registry,
        &s("C"),
        &s("S"),
        &s("T1"),
        &s("ALPHA"),
        0,
        &s("R"),
    );
    assert!(matches!(forward, Err(ContractError::InvalidAmount)));
    assert!(registry.lookup(&s("ALPHA")).is_none());

    let back = convert_coin_to_cw20(&registry, &s("C"), &s("S"), &s("T1"), &s("ALPHA"), 0, &s("R"));
    assert!(matches!(back, Err(ContractError::InvalidAmount)));
}

#[test]
fn unknown_denom_rejected_on_the_way_back() {
    let registry = DenomRegistry::new();
    let back = convert_coin_to_cw20(
        &registry,
        &s("C"),
        &s("S"),
        &s("T1"),
        &s("ALPHA"),
        25,
        &s("R"),
    );
    assert!(matches!(back, Err(ContractError::UnknownDenom)));
}

#[test]
fn colliding_token_names_rejected_as_mismatch() {
    let mut registry = DenomRegistry::new();
    convert_cw20_to_coin(&mut registry, &s("C"), &s("S"), &s("T1"), &s("ALPHA"), 100, &s("R"))
        .unwrap();

    let forward = convert_cw20_to_coin(
        &mut registry,
        &s("C"),
        &s("S"),
        &s("T2"),
        &s("ALPHA"),
        100,
        &s("R"),
    );
    assert!(matches!(forward, Err(ContractError::DenomMismatch)));

    let back = convert_coin_to_cw20(
        &registry,
        &s("C"),
        &s("S"),
        &s("T2"),
        &s("ALPHA"),
        100,
        &s("R"),
    );
    assert!(matches!(back, Err(ContractError::DenomMismatch)));
}

#[test]
fn create_is_guarded_against_a_second_binding() {
    let mut registry = DenomRegistry::new();
    registry
        .create(s("ALPHA"), Denom { token: s("T1"), denom: s("ALPHA") })
        .unwrap();
    let second = registry.create(s("ALPHA"), Denom { token: s("T2"), denom: s("ALPHA") });
    assert!(matches!(second, Err(ContractError::AlreadyBound)));

    let record = registry.lookup(&s("ALPHA")).unwrap();
    assert_eq!(record.token, "T1");
}

#[test]
fn round_trip_plans_matching_amounts() {
    let mut registry = DenomRegistry::new();
    let forward = convert_cw20_to_coin(
        &mut registry,
        &s("C"),
        &s("S"),
        &s("T1"),
        &s("ALPHA"),
        77,
        &s("R"),
    )
    .unwrap();
    let back = convert_coin_to_cw20(
        &registry,
        &s("C"),
        &s("S"),
        &s("T1"),
        &s("ALPHA"),
        77,
        &s("R"),
    )
    .unwrap();

    assert_eq!(forward.instructions.len(), 5);
    assert_eq!(back.instructions.len(), 3);
    match &back.instructions[0] {
        Instruction::DelegatedSend { grantee, from, to, denom, amount } => {
            assert_eq!(grantee, "C");
            assert_eq!(from, "R");
            assert_eq!(to, "C");
            assert_eq!(denom, "factory/C/ALPHA");
            assert_eq!(*amount, 77);
        }
        other => panic!("expected DelegatedSend, got {:?}", other),
    }
    match &back.instructions[1] {
        Instruction::Burn { sender, denom, amount } => {
            assert_eq!(sender, "C");
            assert_eq!(denom, "factory/C/ALPHA");
            assert_eq!(*amount, 77);
        }
        other => panic!("expected Burn, got {:?}", other),
    }
    match &back.instructions[2] {
        Instruction::Transfer { contract, recipient, amount } => {
            assert_eq!(contract, "T1");
            assert_eq!(recipient, "R");
            assert_eq!(*amount, 77);
        }
        other => panic!("expected Transfer, got {:?}", other),
    }
    assert_eq!(back.attributes.action, "convert_coin_to_cw20");
    assert_eq!(back.attributes.sender, "S");
    assert_eq!(back.attributes.subdenom, "ALPHA");
    assert_eq!(back.attributes.amount, 77);
}

#[test]
fn execute_routes_both_directions() {
    let mut registry = DenomRegistry::new();
    let forward = execute(
        &mut registry,
        &s("C"),
        &s("S"),
        &s("ALPHA"),
        ExecuteMsg::ConvertCw20ToCoin { token: s("T1"), amount: 10, recipient: s("R") },
    )
    .unwrap();
    assert_eq!(forward.instructions.len(), 5);

    let back = execute(
        &mut registry,
        &s("C"),
        &s("S"),
        &s("ALPHA"),
        ExecuteMsg::ConvertCoinToCw20 { token: s("T1"), amount: 10, recipient: s("R") },
    )
    .unwrap();
    assert_eq!(back.instructions.len(), 3);

    let unknown = execute(
        &mut registry,
        &s("C"),
        &s("S"),
        &s("BETA"),
        ExecuteMsg::ConvertCoinToCw20 { token: s("T1"), amount: 10, recipient: s("R") },
    );
    assert!(matches!(unknown, Err(ContractError::UnknownDenom)));
}

#[test]
fn largest_amount_converts_without_scaling() {
    let mut registry = DenomRegistry::new();
    let plan = convert_cw20_to_coin(
        &mut registry,
        &s("C"),
        &s("S"),
        &s("T1"),
        &s("ALPHA"),
        u128::MAX,
        &s("R"),
    )
    .unwrap();
    assert_eq!(plan.attributes.amount, u128::MAX);
    match &plan.instructions[4] {
        Instruction::Send { amount, .. } => assert_eq!(*amount, u128::MAX),
        other => panic!("expected Send, got {:?}", other),
    }
}

#[test]
fn factory_denom_string_builds_the_full_name() {
    assert_eq!(factory_denom_string(&s("osmo1abc"), &s("ALPHA")), "factory/osmo1abc/ALPHA");
    assert_eq!(factory_denom_string(&s(""), &s("")), "factory//");
}
