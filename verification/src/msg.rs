use vstd::prelude::*;

verus! {

/// The converter takes nothing to set up: the registry starts empty and
/// grows lazily, one binding per first-converted token.
pub struct InstantiateMsg {}

/// A conversion request. `amount` must be positive; `token` and
/// `recipient` are account strings validated by the execution
/// environment, not re-checked here.
pub enum ExecuteMsg {
    /// Pull `amount` of the cw20 token from the caller into converter
    /// custody, mint the same amount of the bound native denomination,
    /// and send the minted coins to `recipient`.
    ConvertCw20ToCoin { token: String, amount: u128, recipient: String },
    /// Pull `amount` of the native denomination out of `recipient`'s
    /// account under delegated authority, burn it, and release the same
    /// amount of the cw20 token from converter custody to `recipient`.
    ConvertCoinToCw20 { token: String, amount: u128, recipient: String },
}

} // verus!
