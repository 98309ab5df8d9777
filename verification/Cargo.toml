[package]
name = "soroban_budget"
version = "0.1.0"
edition = "2021"
publish = false

[dependencies]
soroban-wasmi = "=0.31.1-soroban.20.0.1"
stellar-xdr = "=20.0.0-rc1"
