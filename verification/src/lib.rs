//! A bidirectional converter between a cw20 token balance and a native,
//! token-factory denomination. The heart of the crate is the conversion
//! planner: it keeps the registry that binds a token to its denomination,
//! and turns each request into one atomic, ordered batch of instructions
//! whose net effect keeps the converter's escrowed token balance at or
//! above the outstanding native supply.

pub mod cosmos;
pub mod convert;
pub mod error;
pub mod laws;
pub mod model;
pub mod msg;
pub mod plan;
pub mod state;
