use vstd::prelude::*;
use vstd::string::StringExecFns;

use cosmwasm_std::{to_json_binary, CosmosMsg, Response, StdError, Uint128, WasmMsg};
use cw20::Cw20ExecuteMsg;
use osmosis_std::shim::Any;
use osmosis_std::types::cosmos::authz::v1beta1::MsgExec;
use osmosis_std::types::cosmos::bank::v1beta1::MsgSend;
use osmosis_std::types::cosmos::base::v1beta1::Coin;
use osmosis_std::types::osmosis::tokenfactory::v1beta1::{MsgBurn, MsgCreateDenom, MsgMint};

use crate::plan::{AttrsV, ConversionPlan, InstrV, Instruction};

verus! {

#[verifier::external_type_specification]
#[verifier::external_body]
pub struct ExEmpty(cosmwasm_std::Empty);

#[verifier::external_type_specification]
#[verifier::external_body]
#[verifier::reject_recursive_types(T)]
pub struct ExCosmosMsg<T>(CosmosMsg<T>);

#[verifier::external_type_specification]
#[verifier::external_body]
#[verifier::reject_recursive_types(T)]
pub struct ExResponse<T>(Response<T>);

#[verifier::external_type_specification]
#[verifier::external_body]
pub struct ExStdError(StdError);

/// The instruction of this library's model that a built environment
/// message encodes. The message type is opaque here, so the mapping has
/// no definition; the trusted constructors below state, one each, which
/// instruction their result encodes.
pub uninterp spec fn cosmos_msg_model(m: CosmosMsg) -> InstrV;

/// The instructions a response carries, in order, as the model
/// instructions its messages encode.
pub uninterp spec fn response_msgs(r: Response) -> Seq<InstrV>;

/// The attribute pairs a response carries, in order.
pub uninterp spec fn response_attrs(r: Response) -> Seq<(Seq<char>, Seq<char>)>;

/// The decimal digit `d` as a character, for `0 <= d <= 9`.
pub open spec fn dec_digit(d: int) -> char {
    if d == 0 {
        '0'
    } else if d == 1 {
        '1'
    } else if d == 2 {
        '2'
    } else if d == 3 {
        '3'
    } else if d == 4 {
        '4'
    } else if d == 5 {
        '5'
    } else if d == 6 {
        '6'
    } else if d == 7 {
        '7'
    } else if d == 8 {
        '8'
    } else {
        '9'
    }
}

/// The decimal rendering of `n`: no sign, no padding, most significant
/// digit first.
pub open spec fn dec_of(n: nat) -> Seq<char>
    decreases n,
{
    if n < 10 {
        seq![dec_digit(n as int)]
    } else {
        dec_of(n / 10).push(dec_digit((n % 10) as int))
    }
}

/// The four tag pairs of a batch, in emission order.
pub open spec fn attr_pairs(a: AttrsV) -> Seq<(Seq<char>, Seq<char>)> {
    seq![
        ("action"@, a.action),
        ("sender"@, a.sender),
        ("subdenom"@, a.subdenom),
        ("amount"@, dec_of(a.amount as nat)),
    ]
}

/// One decimal digit as a string slice.
fn digit_str(d: u128) -> (r: &'static str)
    requires
        d < 10,
    ensures
        r@ == seq![dec_digit(d as int)],
{
    let r: &'static str = if d == 0 {
        "0"
    } else if d == 1 {
        "1"
    } else if d == 2 {
        "2"
    } else if d == 3 {
        "3"
    } else if d == 4 {
        "4"
    } else if d == 5 {
        "5"
    } else if d == 6 {
        "6"
    } else if d == 7 {
        "7"
    } else if d == 8 {
        "8"
    } else {
        "9"
    };
    proof {
        reveal_strlit("0");
        reveal_strlit("1");
        reveal_strlit("2");
        reveal_strlit("3");
        reveal_strlit("4");
        reveal_strlit("5");
        reveal_strlit("6");
        reveal_strlit("7");
        reveal_strlit("8");
        reveal_strlit("9");
        assert(r@ =~= seq![dec_digit(d as int)]);
    }
    r
}

/// Append the decimal rendering of `n` to `out`.
fn push_dec(n: u128, out: &mut String)
    ensures
        final(out)@ == old(out)@ + dec_of(n as nat),
    decreases n,
{
    if n >= 10 {
        push_dec(n / 10, out);
    }
    out.append(digit_str(n % 10));
    proof {
        assert(out@ =~= old(out)@ + dec_of(n as nat));
    }
}

/// Render `n` in decimal.
fn u128_to_string(n: u128) -> (r: String)
    ensures
        r@ == dec_of(n as nat),
{
    let mut out = String::new();
    push_dec(n, &mut out);
    proof {
        assert(out@ =~= dec_of(n as nat));
    }
    out
}

/// Relies on osmosis_std's `MsgCreateDenom` and its generated conversion
/// into a stargate `CosmosMsg` (prost encoding into a growing buffer
/// cannot fail): the result encodes the creation of
/// `factory/{sender}/{subdenom}` with `sender` as its authority.
#[verifier::external_body]
fn msg_create_denom(sender: &String, subdenom: &String) -> (r: CosmosMsg)
    ensures
        cosmos_msg_model(r) == (InstrV::CreateDenom { sender: sender@, subdenom: subdenom@ }),
{
    MsgCreateDenom { sender: sender.clone(), subdenom: subdenom.clone() }.into()
}

/// Relies on osmosis_std's `MsgMint` and its generated conversion into a
/// stargate `CosmosMsg`: the result encodes minting `amount` of `denom`
/// under `sender`'s authority, to `sender`'s own account.
#[verifier::external_body]
fn msg_mint(sender: &String, denom: &String, amount: u128) -> (r: CosmosMsg)
    ensures
        cosmos_msg_model(r) == (InstrV::Mint { sender: sender@, denom: denom@, amount }),
{
    MsgMint {
        sender: sender.clone(),
        mint_to_address: sender.clone(),
        amount: Some(Coin { denom: denom.clone(), amount: amount.to_string() }),
    }.into()
}

/// Relies on osmosis_std's `MsgBurn` and its generated conversion into a
/// stargate `CosmosMsg`: the result encodes burning `amount` of `denom`
/// from `sender`'s account under `sender`'s authority.
#[verifier::external_body]
fn msg_burn(sender: &String, denom: &String, amount: u128) -> (r: CosmosMsg)
    ensures
        cosmos_msg_model(r) == (InstrV::Burn { sender: sender@, denom: denom@, amount }),
{
    MsgBurn {
        sender: sender.clone(),
        burn_from_address: sender.clone(),
        amount: Some(Coin { denom: denom.clone(), amount: amount.to_string() }),
    }.into()
}

/// Relies on osmosis_std's bank `MsgSend` and its generated conversion
/// into a stargate `CosmosMsg`: the result encodes sending `amount` of
/// `denom` from `from` to `to`.
#[verifier::external_body]
fn msg_bank_send(from: &String, to: &String, denom: &String, amount: u128) -> (r: CosmosMsg)
    ensures
        cosmos_msg_model(r) == (InstrV::Send { from: from@, to: to@, denom: denom@, amount }),
{
    MsgSend {
        from_address: from.clone(),
        to_address: to.clone(),
        amount: vec![Coin { denom: denom.clone(), amount: amount.to_string() }],
    }.into()
}

/// Relies on osmosis_std's authz `MsgExec`, on bank `MsgSend`'s generated
/// protobuf encoding into `Binary`, and on the generated conversion of
/// `MsgExec` into a stargate `CosmosMsg` (the literal type URL is the
/// bank message's own URL constant): the result encodes a bank send of
/// `amount` of `denom` from `from` to `to`, executed under authority
/// delegated to `grantee`.
#[verifier::external_body]
fn msg_authz_exec_send(
    grantee: &String,
    from: &String,
    to: &String,
    denom: &String,
    amount: u128,
) -> (r: CosmosMsg)
    ensures
        cosmos_msg_model(r) == (InstrV::DelegatedSend {
            grantee: grantee@,
            from: from@,
            to: to@,
            denom: denom@,
            amount,
        }),
{
    let send = MsgSend {
        from_address: from.clone(),
        to_address: to.clone(),
        amount: vec![Coin { denom: denom.clone(), amount: amount.to_string() }],
    };
    let value = cosmwasm_std::Binary::from(send).to_vec();
    MsgExec {
        grantee: grantee.clone(),
        msgs: vec![Any { type_url: "/cosmos.bank.v1beta1.MsgSend".to_string(), value }],
    }.into()
}

/// Relies on cosmwasm_std's `to_json_binary` of cw20's
/// `Cw20ExecuteMsg::IncreaseAllowance` (no expiry) and on
/// `WasmMsg::Execute`. Serializing this fixed shape of strings and
/// integers cannot fail, so the call returns `Ok`; the result encodes
/// letting `spender` pull up to `amount` from the caller's balance on the
/// cw20 contract `contract`.
#[verifier::external_body]
fn wasm_increase_allowance(
    contract: &String,
    spender: &String,
    amount: u128,
) -> (r: Result<CosmosMsg, StdError>)
    ensures
        match r {
            Ok(m) => cosmos_msg_model(m) == (InstrV::IncreaseAllowance {
                contract: contract@,
                spender: spender@,
                amount,
            }),
            Err(_) => false,
        },
{
    let msg = to_json_binary(
        &Cw20ExecuteMsg::IncreaseAllowance {
            spender: spender.clone(),
            amount: Uint128::new(amount),
            expires: None,
        },
    )?;
    Ok(CosmosMsg::Wasm(WasmMsg::Execute { contract_addr: contract.clone(), msg, funds: vec![] }))
}

/// Relies on cosmwasm_std's `to_json_binary` of cw20's
/// `Cw20ExecuteMsg::TransferFrom` and on `WasmMsg::Execute`. Serializing
/// this fixed shape cannot fail, so the call returns `Ok`; the result
/// encodes moving `amount` of the cw20 token `contract` from `owner` to
/// `recipient`.
#[verifier::external_body]
fn wasm_transfer_from(
    contract: &String,
    owner: &String,
    recipient: &String,
    amount: u128,
) -> (r: Result<CosmosMsg, StdError>)
    ensures
        match r {
            Ok(m) => cosmos_msg_model(m) == (InstrV::TransferFrom {
                contract: contract@,
                owner: owner@,
                recipient: recipient@,
                amount,
            }),
            Err(_) => false,
        },
{
    let msg = to_json_binary(
        &Cw20ExecuteMsg::TransferFrom {
            owner: owner.clone(),
            recipient: recipient.clone(),
            amount: Uint128::new(amount),
        },
    )?;
    Ok(CosmosMsg::Wasm(WasmMsg::Execute { contract_addr: contract.clone(), msg, funds: vec![] }))
}

/// Relies on cosmwasm_std's `to_json_binary` of cw20's
/// `Cw20ExecuteMsg::Transfer` and on `WasmMsg::Execute`. Serializing this
/// fixed shape cannot fail, so the call returns `Ok`; the result encodes
/// moving `amount` of the cw20 token `contract` from the executing
/// account to `recipient`.
#[verifier::external_body]
fn wasm_transfer(
    contract: &String,
    recipient: &String,
    amount: u128,
) -> (r: Result<CosmosMsg, StdError>)
    ensures
        match r {
            Ok(m) => cosmos_msg_model(m) == (InstrV::Transfer {
                contract: contract@,
                recipient: recipient@,
                amount,
            }),
            Err(_) => false,
        },
{
    let msg = to_json_binary(
        &Cw20ExecuteMsg::Transfer { recipient: recipient.clone(), amount: Uint128::new(amount) },
    )?;
    Ok(CosmosMsg::Wasm(WasmMsg::Execute { contract_addr: contract.clone(), msg, funds: vec![] }))
}

/// Relies on cosmwasm_std's `Response::new`: an empty response, carrying
/// no messages and no attributes.
#[verifier::external_body]
fn response_new() -> (r: Response)
    ensures
        response_msgs(r) == Seq::<InstrV>::empty(),
        response_attrs(r) == Seq::<(Seq<char>, Seq<char>)>::empty(),
{
    Response::new()
}

/// Relies on cosmwasm_std's `Response::add_message`: appends one message
/// to the response's batch and touches nothing else.
#[verifier::external_body]
fn response_add_message(response: Response, message: CosmosMsg) -> (r: Response)
    ensures
        response_msgs(r) == response_msgs(response).push(cosmos_msg_model(message)),
        response_attrs(r) == response_attrs(response),
{
    response.add_message(message)
}

/// Relies on cosmwasm_std's `Response::add_attribute`: appends one
/// observability tag and touches no message. `Attribute::new` panics in
/// debug builds on a key that starts with an underscore (such keys are
/// reserved), so those keys are excluded.
#[verifier::external_body]
fn response_add_attribute(response: Response, key: &str, value: &str) -> (r: Response)
    requires
        key@.len() > 0 ==> key@[0] != '_',
    ensures
        response_msgs(r) == response_msgs(response),
        response_attrs(r) == response_attrs(response).push((key@, value@)),
{
    response.add_attribute(key, value)
}

/// Assemble a plan into the single atomic response the execution
/// environment takes: the response carries exactly the four tags of the
/// plan, in order, and then one message per instruction, encoding the
/// plan's instructions in the plan's order.
pub fn plan_response(plan: &ConversionPlan) -> (r: Response)
    ensures
        response_msgs(r) == plan@.instructions,
        response_attrs(r) == attr_pairs(plan@.attributes),
{
    proof {
        reveal_strlit("action");
        reveal_strlit("sender");
        reveal_strlit("subdenom");
        reveal_strlit("amount");
    }
    let mut resp = response_new();
    resp = response_add_attribute(resp, "action", plan.attributes.action.as_str());
    resp = response_add_attribute(resp, "sender", plan.attributes.sender.as_str());
    resp = response_add_attribute(resp, "subdenom", plan.attributes.subdenom.as_str());
    let amount_text = u128_to_string(plan.attributes.amount);
    resp = response_add_attribute(resp, "amount", amount_text.as_str());
    proof {
        assert(response_attrs(resp) =~= attr_pairs(plan@.attributes));
    }
    let n = plan.instructions.len();
    let mut k: usize = 0;
    while k < n
        invariant
            n == plan.instructions@.len(),
            k <= n,
            response_attrs(resp) == attr_pairs(plan@.attributes),
            response_msgs(resp) == plan@.instructions.subrange(0, k as int),
        decreases n - k,
    {
        let message: CosmosMsg = match &plan.instructions[k] {
            Instruction::CreateDenom { sender, subdenom } => msg_create_denom(sender, subdenom),
            Instruction::IncreaseAllowance { contract, spender, amount } => {
                match wasm_increase_allowance(contract, spender, *amount) {
                    Ok(m) => m,
                    Err(_) => unreached(),
                }
            },
            Instruction::TransferFrom { contract, owner, recipient, amount } => {
                match wasm_transfer_from(contract, owner, recipient, *amount) {
                    Ok(m) => m,
                    Err(_) => unreached(),
                }
            },
            Instruction::Mint { sender, denom, amount } => msg_mint(sender, denom, *amount),
            Instruction::Send { from, to, denom, amount } => msg_bank_send(
                from,
                to,
                denom,
                *amount,
            ),
            Instruction::DelegatedSend { grantee, from, to, denom, amount } => {
                msg_authz_exec_send(grantee, from, to, denom, *amount)
            },
            Instruction::Burn { sender, denom, amount } => msg_burn(sender, denom, *amount),
            Instruction::Transfer { contract, recipient, amount } => {
                match wasm_transfer(contract, recipient, *amount) {
                    Ok(m) => m,
                    Err(_) => unreached(),
                }
            },
        };
        proof {
            assert(cosmos_msg_model(message) == plan@.instructions[k as int]);
        }
        resp = response_add_message(resp, message);
        proof {
            assert(response_msgs(resp) =~= plan@.instructions.subrange(0, k as int + 1));
        }
        k += 1;
    }
    proof {
        assert(plan@.instructions.subrange(0, n as int) =~= plan@.instructions);
    }
    resp
}

} // verus!
