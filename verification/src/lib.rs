//! A verified model of a delegated token-transfer instruction.
//!
//! The instruction receives a transfer amount and a set of account
//! references, rejects a zero amount with its own `InvalidAmount` error
//! code, and otherwise delegates the transfer to the standard token
//! program, propagating that program's failures unchanged.
//!
//! `token` models the delegated token program's balance-transfer rule;
//! `transfer` holds the instruction handler itself and its error taxonomy.

pub mod token;
pub mod transfer;
