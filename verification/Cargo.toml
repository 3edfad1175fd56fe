[package]
name = "cw721_time_limited"
version = "0.1.0"
edition = "2021"
publish = false

[dependencies]
cosmwasm-schema = "1.5"
cosmwasm-std = "1.5"
cw2 = "1.1"
cw721 = "0.18"
cw721-base = "0.18"
cw-ownable = "0.5"
cw-storage-plus = "1.2"
