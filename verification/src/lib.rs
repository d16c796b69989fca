//! A minimal account-based value-transfer program: a decoder that turns a
//! raw byte buffer into a typed instruction, and an executor that moves
//! lamports between host-owned accounts exactly as that instruction demands.

pub mod account;
pub mod error;
mod host;
pub mod instruction;
pub mod processor;
