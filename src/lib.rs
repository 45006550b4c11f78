//! A token-swap escrow: wire codec, escrow record, derived-address seeds and
//! the validation logic of the Make, Take and Refund operations.

pub mod address;
pub mod bytes;
pub mod error;
pub mod instruction;
pub mod laws;
pub mod processor;
pub mod state;
