[package]
name = "vending_machine"
version = "0.1.0"
edition = "2021"
publish = false

[dependencies]
cosmwasm-schema = "*"
cosmwasm-std = "*"
cw-storage-plus = "*"
