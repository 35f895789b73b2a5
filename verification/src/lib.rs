//! Verified core of the Python bindings to biscuit authorization tokens:
//! key handling, term conversion, datalog items, builders, tokens and
//! authorizers, with the lifecycle of each stateful object stated and proved.
pub mod error;
pub mod hexfmt;
pub mod b64;
pub mod term;
pub mod keys;
pub mod datalog;
pub mod block;
pub mod biscuit;
pub mod authorizer;
