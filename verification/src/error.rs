use vstd::prelude::*;

verus! {

/// Every failure the converter reports. No error is swallowed: a request
/// that fails produces no instructions and leaves the registry unchanged.
#[derive(Debug, Clone, Copy, PartialEq, Eq, Structural)]
pub enum ContractError {
    /// The requested amount was zero; rejected before any planning.
    InvalidAmount,
    /// A registry binding for the key already exists; the binding is
    /// created at most once and never re-pointed.
    AlreadyBound,
    /// The registry holds a binding for the derived name, but for a
    /// different token: two tokens collided on one name, or the registry
    /// was corrupted. The request is aborted.
    DenomMismatch,
    /// A coin-to-token request named a denomination that was never
    /// created by a forward conversion.
    UnknownDenom,
}

} // verus!
