use vstd::prelude::*;

verus! {

/// One outgoing instruction of an atomic batch. The execution environment
/// applies a whole batch as one transaction or not at all, so the order
/// inside a batch is the only order that matters.
#[derive(Debug)]
pub enum Instruction {
    /// Create the native denomination `factory/{sender}/{subdenom}`;
    /// `sender` is the converter account, which becomes the denomination's
    /// mint and burn authority.
    CreateDenom { sender: String, subdenom: String },
    /// Let `spender` pull up to `amount` from the caller's balance on the
    /// cw20 token contract `contract`.
    IncreaseAllowance { contract: String, spender: String, amount: u128 },
    /// Pull `amount` of the cw20 token `contract` from `owner` to
    /// `recipient`.
    TransferFrom { contract: String, owner: String, recipient: String, amount: u128 },
    /// Mint `amount` of the native denomination `denom`; authority
    /// `sender`, minted to `sender`'s own account.
    Mint { sender: String, denom: String, amount: u128 },
    /// Send `amount` of the native `denom` from `from` to `to`.
    Send { from: String, to: String, denom: String, amount: u128 },
    /// Under authority delegated to `grantee`, send `amount` of the native
    /// `denom` from `from` to `to`.
    DelegatedSend { grantee: String, from: String, to: String, denom: String, amount: u128 },
    /// Burn `amount` of the native denomination `denom` from `sender`'s
    /// account; authority `sender`.
    Burn { sender: String, denom: String, amount: u128 },
    /// Move `amount` of the cw20 token `contract` from the converter's own
    /// balance to `recipient`.
    Transfer { contract: String, recipient: String, amount: u128 },
}

/// The mathematical value of one instruction.
pub enum InstrV {
    CreateDenom { sender: Seq<char>, subdenom: Seq<char> },
    IncreaseAllowance { contract: Seq<char>, spender: Seq<char>, amount: u128 },
    TransferFrom { contract: Seq<char>, owner: Seq<char>, recipient: Seq<char>, amount: u128 },
    Mint { sender: Seq<char>, denom: Seq<char>, amount: u128 },
    Send { from: Seq<char>, to: Seq<char>, denom: Seq<char>, amount: u128 },
    DelegatedSend {
        grantee: Seq<char>,
        from: Seq<char>,
        to: Seq<char>,
        denom: Seq<char>,
        amount: u128,
    },
    Burn { sender: Seq<char>, denom: Seq<char>, amount: u128 },
    Transfer { contract: Seq<char>, recipient: Seq<char>, amount: u128 },
}

impl View for Instruction {
    type V = InstrV;

    open spec fn view(&self) -> InstrV {
        match self {
            Instruction::CreateDenom { sender, subdenom } => InstrV::CreateDenom {
                sender: sender@,
                subdenom: subdenom@,
            },
            Instruction::IncreaseAllowance { contract, spender, amount } => {
                InstrV::IncreaseAllowance {
                    contract: contract@,
                    spender: spender@,
                    amount: *amount,
                }
            },
            Instruction::TransferFrom { contract, owner, recipient, amount } => {
                InstrV::TransferFrom {
                    contract: contract@,
                    owner: owner@,
                    recipient: recipient@,
                    amount: *amount,
                }
            },
            Instruction::Mint { sender, denom, amount } => InstrV::Mint {
                sender: sender@,
                denom: denom@,
                amount: *amount,
            },
            Instruction::Send { from, to, denom, amount } => InstrV::Send {
                from: from@,
                to: to@,
                denom: denom@,
                amount: *amount,
            },
            Instruction::DelegatedSend { grantee, from, to, denom, amount } => {
                InstrV::DelegatedSend {
                    grantee: grantee@,
                    from: from@,
                    to: to@,
                    denom: denom@,
                    amount: *amount,
                }
            },
            Instruction::Burn { sender, denom, amount } => InstrV::Burn {
                sender: sender@,
                denom: denom@,
                amount: *amount,
            },
            Instruction::Transfer { contract, recipient, amount } => InstrV::Transfer {
                contract: contract@,
                recipient: recipient@,
                amount: *amount,
            },
        }
    }
}

/// The observability tags attached to a batch.
pub struct PlanAttributes {
    /// Which direction was taken.
    pub action: String,
    /// The account that sent the request.
    pub sender: String,
    /// The sub-denomination the batch is about.
    pub subdenom: String,
    /// The converted amount.
    pub amount: u128,
}

/// The mathematical value of the tags.
pub struct AttrsV {
    pub action: Seq<char>,
    pub sender: Seq<char>,
    pub subdenom: Seq<char>,
    pub amount: u128,
}

impl View for PlanAttributes {
    type V = AttrsV;

    open spec fn view(&self) -> AttrsV {
        AttrsV {
            action: self.action@,
            sender: self.sender@,
            subdenom: self.subdenom@,
            amount: self.amount,
        }
    }
}

/// One conversion's complete answer: the ordered instruction batch the
/// execution environment is to apply atomically, and its tags.
pub struct ConversionPlan {
    pub instructions: Vec<Instruction>,
    pub attributes: PlanAttributes,
}

/// The mathematical value of a plan.
pub struct PlanV {
    pub instructions: Seq<InstrV>,
    pub attributes: AttrsV,
}

impl View for ConversionPlan {
    type V = PlanV;

    open spec fn view(&self) -> PlanV {
        PlanV {
            instructions: self.instructions@.map_values(|i: Instruction| i@),
            attributes: self.attributes@,
        }
    }
}

} // verus!
