[package]
name = "noughts_and_crosses"
version = "0.1.0"
edition = "2021"
publish = false

[dependencies]
borsh = "=0.10.4"
home = "0.5"
solana-program = "=1.17.34"
solana-sdk = "=1.17.34"
yaml-rust = "=0.4.5"
