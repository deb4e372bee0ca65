use vstd::prelude::*;

use crate::error::ContractError;
use crate::model::{
    factory_denom, to_coin_instrs, to_coin_outcome, to_token_instrs, to_token_outcome,
};
use crate::plan::{InstrV, PlanV};
use crate::state::DenomV;

verus! {

/// How many denomination-creation instructions a batch holds.
pub open spec fn count_creates(s: Seq<InstrV>) -> nat
    decreases s.len(),
{
    if s.len() == 0 {
        0
    } else {
        count_creates(s.drop_last()) + if s.last() is CreateDenom {
            1nat
        } else {
            0nat
        }
    }
}

/// Every instruction satisfying `first` stands before every instruction
/// satisfying `second`.
pub open spec fn precedes(
    s: Seq<InstrV>,
    first: spec_fn(InstrV) -> bool,
    second: spec_fn(InstrV) -> bool,
) -> bool {
    forall|i: int, j: int|
        0 <= i < s.len() && 0 <= j < s.len() && first(s[i]) && second(s[j]) ==> i < j
}

/// By how much one instruction changes the cw20 balance of `token` that
/// the converter account `converter` holds in escrow.
pub open spec fn instr_escrow_delta(i: InstrV, converter: Seq<char>, token: Seq<char>) -> int {
    match i {
        InstrV::TransferFrom { contract, owner, recipient, amount } => if contract == token
            && recipient == converter {
            amount as int
        } else {
            0
        },
        InstrV::Transfer { contract, recipient, amount } => if contract == token {
            -(amount as int)
        } else {
            0
        },
        _ => 0,
    }
}

/// By how much a batch changes the converter's escrowed balance of `token`.
pub open spec fn escrow_delta(s: Seq<InstrV>, converter: Seq<char>, token: Seq<char>) -> int
    decreases s.len(),
{
    if s.len() == 0 {
        0
    } else {
        escrow_delta(s.drop_last(), converter, token) + instr_escrow_delta(
            s.last(),
            converter,
            token,
        )
    }
}

/// By how much one instruction changes the outstanding native supply of
/// `denom`. Sends move coins between accounts and change no supply.
pub open spec fn instr_supply_delta(i: InstrV, denom: Seq<char>) -> int {
    match i {
        InstrV::Mint { sender, denom: d, amount } => if d == denom {
            amount as int
        } else {
            0
        },
        InstrV::Burn { sender, denom: d, amount } => if d == denom {
            -(amount as int)
        } else {
            0
        },
        _ => 0,
    }
}

/// By how much a batch changes the outstanding native supply of `denom`.
pub open spec fn supply_delta(s: Seq<InstrV>, denom: Seq<char>) -> int
    decreases s.len(),
{
    if s.len() == 0 {
        0
    } else {
        supply_delta(s.drop_last(), denom) + instr_supply_delta(s.last(), denom)
    }
}

proof fn lemma_deltas_to_coin_instrs(
    converter: Seq<char>,
    caller: Seq<char>,
    token: Seq<char>,
    name: Seq<char>,
    amount: u128,
    recipient: Seq<char>,
)
    ensures
        escrow_delta(to_coin_instrs(converter, caller, token, name, amount, recipient), converter, token)
            == amount as int,
        supply_delta(
            to_coin_instrs(converter, caller, token, name, amount, recipient),
            factory_denom(converter, name),
        ) == amount as int,
{
    reveal_with_fuel(escrow_delta, 6);
    reveal_with_fuel(supply_delta, 6);
    let s4 = to_coin_instrs(converter, caller, token, name, amount, recipient);
    let s3 = s4.drop_last();
    let s2 = s3.drop_last();
    let s1 = s2.drop_last();
    let s0 = s1.drop_last();
    assert(s0.len() == 0);
    assert(s1.last() == s4[0]);
    assert(s2.last() == s4[1]);
    assert(s3.last() == s4[2]);
}

proof fn lemma_deltas_to_token_instrs(
    converter: Seq<char>,
    token: Seq<char>,
    name: Seq<char>,
    amount: u128,
    recipient: Seq<char>,
)
    ensures
        escrow_delta(to_token_instrs(converter, token, name, amount, recipient), converter, token)
            == -(amount as int),
        supply_delta(
            to_token_instrs(converter, token, name, amount, recipient),
            factory_denom(converter, name),
        ) == -(amount as int),
{
    reveal_with_fuel(escrow_delta, 5);
    reveal_with_fuel(supply_delta, 5);
    let s3 = to_token_instrs(converter, token, name, amount, recipient);
    let s2 = s3.drop_last();
    let s1 = s2.drop_last();
    let s0 = s1.drop_last();
    assert(s0.len() == 0);
    assert(s1.last() == s3[0]);
    assert(s2.last() == s3[1]);
}

/// A first forward conversion of a token never seen before creates
/// exactly one binding, for exactly the derived name; a second forward
/// conversion of the same token creates no further binding, leaves the
/// registry exactly as the first call left it, and plans against the
/// existing binding.
pub proof fn lemma_denom_created_once(
    reg: Map<Seq<char>, DenomV>,
    converter: Seq<char>,
    caller1: Seq<char>,
    caller2: Seq<char>,
    token: Seq<char>,
    name: Seq<char>,
    amount1: u128,
    amount2: u128,
    recipient1: Seq<char>,
    recipient2: Seq<char>,
)
    requires
        !reg.contains_key(name),
        amount1 != 0,
        amount2 != 0,
    ensures
        ({
            let (plan1, reg1) = to_coin_outcome(reg, converter, caller1, token, name, amount1, recipient1);
            let (plan2, reg2) = to_coin_outcome(reg1, converter, caller2, token, name, amount2, recipient2);
            &&& reg1 == reg.insert(name, DenomV { token, denom: name })
            &&& reg1.dom() =~= reg.dom().insert(name)
            &&& match plan1 {
                Ok(pv) => count_creates(pv.instructions) == 1,
                Err(_) => false,
            }
            &&& reg2 == reg1
            &&& match plan2 {
                Ok(pv) => count_creates(pv.instructions) == 0 && pv.instructions
                    == to_coin_instrs(converter, caller2, token, name, amount2, recipient2),
                Err(_) => false,
            }
        }),
{
    reveal_with_fuel(count_creates, 7);
    let (plan1, reg1) = to_coin_outcome(reg, converter, caller1, token, name, amount1, recipient1);
    let body = to_coin_instrs(converter, caller1, token, name, amount1, recipient1);
    let s5 = seq![InstrV::CreateDenom { sender: converter, subdenom: name }] + body;
    assert(plan1 == Ok::<PlanV, ContractError>(
        PlanV {
            instructions: s5,
            attributes: crate::model::to_coin_attrs(caller1, name, amount1),
        },
    ));
    let s4 = s5.drop_last();
    let s3 = s4.drop_last();
    let s2 = s3.drop_last();
    let s1 = s2.drop_last();
    let s0 = s1.drop_last();
    assert(s5.len() == 5);
    assert(s0.len() == 0);
    assert(s1.last() == s5[0]);
    assert(s2.last() == s5[1]);
    assert(s3.last() == s5[2]);
    assert(s4.last() == s5[3]);
    assert(count_creates(s5) == 1);
    let t4 = to_coin_instrs(converter, caller2, token, name, amount2, recipient2);
    let t3 = t4.drop_last();
    let t2 = t3.drop_last();
    let t1 = t2.drop_last();
    let t0 = t1.drop_last();
    assert(t0.len() == 0);
    assert(t1.last() == t4[0]);
    assert(t2.last() == t4[1]);
    assert(t3.last() == t4[2]);
    assert(count_creates(t4) == 0);
}

/// In every planned batch the documented order holds: the allowance
/// stands before the pull, the pull before the mint, the mint before the
/// settlement send; the delegated pull before the burn, and the burn
/// before the release of the escrowed token.
pub proof fn lemma_instruction_order(
    reg: Map<Seq<char>, DenomV>,
    converter: Seq<char>,
    caller: Seq<char>,
    token: Seq<char>,
    name: Seq<char>,
    amount: u128,
    recipient: Seq<char>,
)
    ensures
        match to_coin_outcome(reg, converter, caller, token, name, amount, recipient).0 {
            Ok(pv) => {
                &&& precedes(
                    pv.instructions,
                    (|i: InstrV| i is IncreaseAllowance),
                    (|i: InstrV| i is TransferFrom),
                )
                &&& precedes(
                    pv.instructions,
                    (|i: InstrV| i is TransferFrom),
                    (|i: InstrV| i is Mint),
                )
                &&& precedes(pv.instructions, (|i: InstrV| i is Mint), (|i: InstrV| i is Send))
                &&& precedes(
                    pv.instructions,
                    (|i: InstrV| i is CreateDenom),
                    (|i: InstrV| i is Mint),
                )
            },
            Err(_) => true,
        },
        match to_token_outcome(reg, converter, caller, token, name, amount, recipient) {
            Ok(pv) => {
                &&& precedes(
                    pv.instructions,
                    (|i: InstrV| i is DelegatedSend),
                    (|i: InstrV| i is Burn),
                )
                &&& precedes(pv.instructions, (|i: InstrV| i is Burn), (|i: InstrV| i is Transfer))
            },
            Err(_) => true,
        },
{
}

/// Round trip: planning a conversion of `amount` of a token to coin and
/// then a conversion of the same `amount` of the resulting denomination
/// back yields two batches whose net effect on the converter's escrowed
/// token balance and on the native supply is zero; the conservation bound
/// `escrow >= supply` holds after each of the two steps.
pub proof fn lemma_round_trip(
    reg: Map<Seq<char>, DenomV>,
    converter: Seq<char>,
    caller1: Seq<char>,
    caller2: Seq<char>,
    token: Seq<char>,
    name: Seq<char>,
    amount: u128,
    recipient1: Seq<char>,
    recipient2: Seq<char>,
    escrow: int,
    supply: int,
)
    requires
        amount != 0,
        reg.contains_key(name) ==> reg[name].token == token,
        escrow >= supply,
    ensures
        ({
            let (plan1, reg1) = to_coin_outcome(reg, converter, caller1, token, name, amount, recipient1);
            let plan2 = to_token_outcome(reg1, converter, caller2, token, name, amount, recipient2);
            let fd = factory_denom(converter, name);
            match (plan1, plan2) {
                (Ok(pv1), Ok(pv2)) => {
                    let ed1 = escrow_delta(pv1.instructions, converter, token);
                    let sd1 = supply_delta(pv1.instructions, fd);
                    let ed2 = escrow_delta(pv2.instructions, converter, token);
                    let sd2 = supply_delta(pv2.instructions, fd);
                    &&& ed1 == amount as int
                    &&& sd1 == amount as int
                    &&& ed2 == -(amount as int)
                    &&& sd2 == -(amount as int)
                    &&& escrow + ed1 + ed2 == escrow
                    &&& supply + sd1 + sd2 == supply
                    &&& escrow + ed1 >= supply + sd1
                    &&& escrow + ed1 + ed2 >= supply + sd1 + sd2
                },
                _ => false,
            }
        }),
{
    let (plan1, reg1) = to_coin_outcome(reg, converter, caller1, token, name, amount, recipient1);
    let body = to_coin_instrs(converter, caller1, token, name, amount, recipient1);
    lemma_deltas_to_coin_instrs(converter, caller1, token, name, amount, recipient1);
    if !reg.contains_key(name) {
        reveal_with_fuel(escrow_delta, 7);
        reveal_with_fuel(supply_delta, 7);
        let s5 = seq![InstrV::CreateDenom { sender: converter, subdenom: name }] + body;
        let s4 = s5.drop_last();
        let s3 = s4.drop_last();
        let s2 = s3.drop_last();
        let s1 = s2.drop_last();
        let s0 = s1.drop_last();
        assert(s0.len() == 0);
        assert(s1.last() == s5[0]);
        assert(s2.last() == s5[1]);
        assert(s3.last() == s5[2]);
        assert(s4.last() == s5[3]);
        assert(escrow_delta(s5, converter, token) == amount as int);
        assert(supply_delta(s5, factory_denom(converter, name)) == amount as int);
    }
    lemma_deltas_to_token_instrs(converter, token, name, amount, recipient2);
}

/// Planning never deletes or re-points a binding: every key bound before
/// a forward conversion is bound to the same record after it, whatever
/// the request was.
pub proof fn lemma_bindings_permanent(
    reg: Map<Seq<char>, DenomV>,
    converter: Seq<char>,
    caller: Seq<char>,
    token: Seq<char>,
    name: Seq<char>,
    amount: u128,
    recipient: Seq<char>,
)
    ensures
        ({
            let (_, reg2) = to_coin_outcome(reg, converter, caller, token, name, amount, recipient);
            forall|k: Seq<char>| #[trigger]
                reg.contains_key(k) ==> reg2.contains_key(k) && reg2[k] == reg[k]
        }),
{
}

/// A zero amount is rejected in both directions, with no instructions and
/// no registry change.
pub proof fn lemma_zero_amount_rejected(
    reg: Map<Seq<char>, DenomV>,
    converter: Seq<char>,
    caller: Seq<char>,
    token: Seq<char>,
    name: Seq<char>,
    recipient: Seq<char>,
)
    ensures
        to_coin_outcome(reg, converter, caller, token, name, 0, recipient) == (
            Err::<PlanV, ContractError>(ContractError::InvalidAmount),
            reg,
        ),
        to_token_outcome(reg, converter, caller, token, name, 0, recipient) == Err::<
            PlanV,
            ContractError,
        >(ContractError::InvalidAmount),
{
}

/// A coin-to-token request for a denomination that was never converted
/// forward fails as unknown, producing no instructions.
pub proof fn lemma_unknown_denom_rejected(
    reg: Map<Seq<char>, DenomV>,
    converter: Seq<char>,
    caller: Seq<char>,
    token: Seq<char>,
    name: Seq<char>,
    amount: u128,
    recipient: Seq<char>,
)
    requires
        !reg.contains_key(name),
        amount != 0,
    ensures
        to_token_outcome(reg, converter, caller, token, name, amount, recipient) == Err::<
            PlanV,
            ContractError,
        >(ContractError::UnknownDenom),
{
}

} // verus!
