//! A per-user counter program: instruction decoding, account validation,
//! deterministic counter addresses and the counter's byte layout, with the
//! create and increase handlers built on them.

pub mod address;
pub mod error;
pub mod state;
pub mod instruction;
pub mod processor;
