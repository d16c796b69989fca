[package]
name = "lamport_bank"
version = "0.1.0"
edition = "2021"
publish = false

[dependencies]
solana-program = "=2.1.21"
