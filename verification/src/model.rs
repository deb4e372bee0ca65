use vstd::prelude::*;

use crate::error::ContractError;
use crate::plan::{AttrsV, InstrV, PlanV};
use crate::state::DenomV;

verus! {

/// The full name of the native denomination bound to a token whose
/// declared name is `name`, created by converter account `converter`.
pub open spec fn factory_denom(converter: Seq<char>, name: Seq<char>) -> Seq<char> {
    "factory/"@ + converter + "/"@ + name
}

/// The tags of a token-to-coin batch.
pub open spec fn to_coin_attrs(caller: Seq<char>, name: Seq<char>, amount: u128) -> AttrsV {
    AttrsV { action: "convert_cw20_to_coin"@, sender: caller, subdenom: name, amount }
}

/// The tags of a coin-to-token batch.
pub open spec fn to_token_attrs(caller: Seq<char>, name: Seq<char>, amount: u128) -> AttrsV {
    AttrsV { action: "convert_coin_to_cw20"@, sender: caller, subdenom: name, amount }
}

/// The monetary instructions of every token-to-coin batch: escrow-pull
/// (allowance, then the pull itself), mint, settlement send.
pub open spec fn to_coin_instrs(
    converter: Seq<char>,
    caller: Seq<char>,
    token: Seq<char>,
    name: Seq<char>,
    amount: u128,
    recipient: Seq<char>,
) -> Seq<InstrV> {
    seq![
        InstrV::IncreaseAllowance { contract: token, spender: converter, amount },
        InstrV::TransferFrom { contract: token, owner: caller, recipient: converter, amount },
        InstrV::Mint { sender: converter, denom: factory_denom(converter, name), amount },
        InstrV::Send {
            from: converter,
            to: recipient,
            denom: factory_denom(converter, name),
            amount,
        },
    ]
}

/// What a token-to-coin request yields: the planned batch or the error,
/// and the registry map after the call. A first conversion prepends the
/// denomination-creation instruction and registers the binding; every
/// later one finds the binding and must see its own token stored there.
pub open spec fn to_coin_outcome(
    reg: Map<Seq<char>, DenomV>,
    converter: Seq<char>,
    caller: Seq<char>,
    token: Seq<char>,
    name: Seq<char>,
    amount: u128,
    recipient: Seq<char>,
) -> (Result<PlanV, ContractError>, Map<Seq<char>, DenomV>) {
    if amount == 0 {
        (Err(ContractError::InvalidAmount), reg)
    } else if !reg.contains_key(name) {
        (
            Ok(
                PlanV {
                    instructions: seq![InstrV::CreateDenom { sender: converter, subdenom: name }]
                        + to_coin_instrs(converter, caller, token, name, amount, recipient),
                    attributes: to_coin_attrs(caller, name, amount),
                },
            ),
            reg.insert(name, DenomV { token, denom: name }),
        )
    } else if reg[name].token != token {
        (Err(ContractError::DenomMismatch), reg)
    } else {
        (
            Ok(
                PlanV {
                    instructions: to_coin_instrs(converter, caller, token, name, amount, recipient),
                    attributes: to_coin_attrs(caller, name, amount),
                },
            ),
            reg,
        )
    }
}

/// The instructions of every coin-to-token batch: delegated settlement
/// pull, burn, release of the escrowed token.
pub open spec fn to_token_instrs(
    converter: Seq<char>,
    token: Seq<char>,
    name: Seq<char>,
    amount: u128,
    recipient: Seq<char>,
) -> Seq<InstrV> {
    seq![
        InstrV::DelegatedSend {
            grantee: converter,
            from: recipient,
            to: converter,
            denom: factory_denom(converter, name),
            amount,
        },
        InstrV::Burn { sender: converter, denom: factory_denom(converter, name), amount },
        InstrV::Transfer { contract: token, recipient, amount },
    ]
}

/// What a coin-to-token request yields. This direction never creates a
/// binding: a denomination that was never converted forward is unknown,
/// and the registry map is left as it was in every case.
pub open spec fn to_token_outcome(
    reg: Map<Seq<char>, DenomV>,
    converter: Seq<char>,
    caller: Seq<char>,
    token: Seq<char>,
    name: Seq<char>,
    amount: u128,
    recipient: Seq<char>,
) -> Result<PlanV, ContractError> {
    if amount == 0 {
        Err(ContractError::InvalidAmount)
    } else if !reg.contains_key(name) {
        Err(ContractError::UnknownDenom)
    } else if reg[name].token != token {
        Err(ContractError::DenomMismatch)
    } else {
        Ok(
            PlanV {
                instructions: to_token_instrs(converter, token, name, amount, recipient),
                attributes: to_token_attrs(caller, name, amount),
            },
        )
    }
}

} // verus!
