use vstd::prelude::*;
use vstd::string::StringExecFns;

use crate::error::ContractError;
use crate::model::{factory_denom, to_coin_outcome, to_token_outcome};
use crate::msg::ExecuteMsg;
use crate::plan::{ConversionPlan, Instruction, PlanAttributes};
use crate::state::{Denom, DenomRegistry};

verus! {

/// Build the full native denomination name `factory/{converter}/{name}`.
pub fn factory_denom_string(converter: &String, name: &String) -> (r: String)
    ensures
        r@ == factory_denom(converter@, name@),
{
    let mut s: String = "factory/".to_owned();
    s.append(converter.as_str());
    s.append("/");
    s.append(name.as_str());
    proof {
        assert(s@ =~= factory_denom(converter@, name@));
    }
    s
}

/// Plan a token-to-coin conversion: pull `amount` of the cw20 token
/// `token` from `caller` into converter custody and mint and send the
/// same amount of the bound native denomination to `recipient`. On the
/// first conversion of a token the denomination is created and the
/// binding registered, as part of the same atomic batch. `token_name` is
/// the token's declared name, as the sub-ledger token contract reports
/// it; it derives both the registry key and the denomination.
pub fn convert_cw20_to_coin(
    registry: &mut DenomRegistry,
    converter: &String,
    caller: &String,
    token: &String,
    token_name: &String,
    amount: u128,
    recipient: &String,
) -> (r: Result<ConversionPlan, ContractError>)
    requires
        old(registry).wf(),
    ensures
        final(registry).wf(),
        ({
            let (planned, reg2) = to_coin_outcome(
                old(registry).as_map(),
                converter@,
                caller@,
                token@,
                token_name@,
                amount,
                recipient@,
            );
            &&& final(registry).as_map() == reg2
            &&& match (r, planned) {
                (Ok(p), Ok(pv)) => p@ == pv,
                (Err(e), Err(ev)) => e == ev,
                _ => false,
            }
        }),
{
    if amount == 0 {
        return Err(ContractError::InvalidAmount);
    }
    let fd = factory_denom_string(converter, token_name);
    let created: bool;
    match registry.lookup(token_name) {
        None => {
            let record = Denom { token: token.clone(), denom: token_name.clone() };
            match registry.create(token_name.clone(), record) {
                Ok(_) => {},
                Err(e) => {
                    return Err(e);
                },
            }
            created = true;
        },
        Some(existing) => {
            if !(existing.token == *token) {
                return Err(ContractError::DenomMismatch);
            }
            created = false;
        },
    }
    let mut instructions: Vec<Instruction> = Vec::new();
    if created {
        instructions.push(
            Instruction::CreateDenom {
                sender: converter.clone(),
                subdenom: token_name.clone(),
            },
        );
    }
    instructions.push(
        Instruction::IncreaseAllowance {
            contract: token.clone(),
            spender: converter.clone(),
            amount,
        },
    );
    instructions.push(
        Instruction::TransferFrom {
            contract: token.clone(),
            owner: caller.clone(),
            recipient: converter.clone(),
            amount,
        },
    );
    instructions.push(Instruction::Mint { sender: converter.clone(), denom: fd.clone(), amount });
    instructions.push(
        Instruction::Send {
            from: converter.clone(),
            to: recipient.clone(),
            denom: fd,
            amount,
        },
    );
    let attributes = PlanAttributes {
        action: "convert_cw20_to_coin".to_owned(),
        sender: caller.clone(),
        subdenom: token_name.clone(),
        amount,
    };
    let plan = ConversionPlan { instructions, attributes };
    proof {
        let (planned, reg2) = to_coin_outcome(
            old(registry).as_map(),
            converter@,
            caller@,
            token@,
            token_name@,
            amount,
            recipient@,
        );
        match planned {
            Ok(pv) => {
                assert(plan@.instructions =~= pv.instructions);
                assert(plan@.attributes == pv.attributes);
            },
            Err(_) => {
                assert(false);
            },
        }
    }
    Ok(plan)
}

/// Plan a coin-to-token conversion: pull `amount` of the bound native
/// denomination out of `recipient`'s account under authority delegated to
/// the converter, burn it, and release the same amount of the cw20 token
/// from converter custody to `recipient`. This direction never creates a
/// binding and never changes the registry: a denomination that was never
/// converted forward is rejected as unknown.
pub fn convert_coin_to_cw20(
    registry: &DenomRegistry,
    converter: &String,
    caller: &String,
    token: &String,
    token_name: &String,
    amount: u128,
    recipient: &String,
) -> (r: Result<ConversionPlan, ContractError>)
    requires
        registry.wf(),
    ensures
        ({
            let planned = to_token_outcome(
                registry.as_map(),
                converter@,
                caller@,
                token@,
                token_name@,
                amount,
                recipient@,
            );
            match (r, planned) {
                (Ok(p), Ok(pv)) => p@ == pv,
                (Err(e), Err(ev)) => e == ev,
                _ => false,
            }
        }),
{
    if amount == 0 {
        return Err(ContractError::InvalidAmount);
    }
    let fd = factory_denom_string(converter, token_name);
    match registry.lookup(token_name) {
        None => {
            return Err(ContractError::UnknownDenom);
        },
        Some(existing) => {
            if !(existing.token == *token) {
                return Err(ContractError::DenomMismatch);
            }
        },
    }
    let mut instructions: Vec<Instruction> = Vec::new();
    instructions.push(
        Instruction::DelegatedSend {
            grantee: converter.clone(),
            from: recipient.clone(),
            to: converter.clone(),
            denom: fd.clone(),
            amount,
        },
    );
    instructions.push(Instruction::Burn { sender: converter.clone(), denom: fd, amount });
    instructions.push(
        Instruction::Transfer { contract: token.clone(), recipient: recipient.clone(), amount },
    );
    let attributes = PlanAttributes {
        action: "convert_coin_to_cw20".to_owned(),
        sender: caller.clone(),
        subdenom: token_name.clone(),
        amount,
    };
    let plan = ConversionPlan { instructions, attributes };
    proof {
        let planned = to_token_outcome(
            registry.as_map(),
            converter@,
            caller@,
            token@,
            token_name@,
            amount,
            recipient@,
        );
        match planned {
            Ok(pv) => {
                assert(plan@.instructions =~= pv.instructions);
                assert(plan@.attributes == pv.attributes);
            },
            Err(_) => {
                assert(false);
            },
        }
    }
    Ok(plan)
}

/// The externally invoked surface: route a request to its direction and
/// surface any error unmodified. `converter` is the converter's own
/// account, `caller` the account that sent the request, and `token_name`
/// the declared name of the request's token.
pub fn execute(
    registry: &mut DenomRegistry,
    converter: &String,
    caller: &String,
    token_name: &String,
    msg: ExecuteMsg,
) -> (r: Result<ConversionPlan, ContractError>)
    requires
        old(registry).wf(),
    ensures
        final(registry).wf(),
        match msg {
            ExecuteMsg::ConvertCw20ToCoin { token, amount, recipient } => ({
                let (planned, reg2) = to_coin_outcome(
                    old(registry).as_map(),
                    converter@,
                    caller@,
                    token@,
                    token_name@,
                    amount,
                    recipient@,
                );
                &&& final(registry).as_map() == reg2
                &&& match (r, planned) {
                    (Ok(p), Ok(pv)) => p@ == pv,
                    (Err(e), Err(ev)) => e == ev,
                    _ => false,
                }
            }),
            ExecuteMsg::ConvertCoinToCw20 { token, amount, recipient } => ({
                let planned = to_token_outcome(
                    old(registry).as_map(),
                    converter@,
                    caller@,
                    token@,
                    token_name@,
                    amount,
                    recipient@,
                );
                &&& *final(registry) == *old(registry)
                &&& match (r, planned) {
                    (Ok(p), Ok(pv)) => p@ == pv,
                    (Err(e), Err(ev)) => e == ev,
                    _ => false,
                }
            }),
        },
{
    match msg {
        ExecuteMsg::ConvertCw20ToCoin { token, amount, recipient } => convert_cw20_to_coin(
            registry,
            converter,
            caller,
            &token,
            token_name,
            amount,
            &recipient,
        ),
        ExecuteMsg::ConvertCoinToCw20 { token, amount, recipient } => convert_coin_to_cw20(
            registry,
            converter,
            caller,
            &token,
            token_name,
            amount,
            &recipient,
        ),
    }
}

} // verus!
