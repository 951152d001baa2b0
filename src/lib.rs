//! An adapter program that decodes a liquidity-deposit instruction, checks the accounts it
//! names against the lending program's state, and builds the lending program's own deposit
//! instruction for them.

pub mod error;
pub mod instruction;
pub mod key;
pub mod lending;
pub mod processor;
