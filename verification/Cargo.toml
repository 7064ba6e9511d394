[package]
name = "counting_contract"
version = "0.3.0"
edition = "2021"
publish = false

[dependencies]
cosmwasm-std = "1"
cosmwasm-schema = "1"
cw-storage-plus = "1"
cw2 = "1"
cw-multi-test = "1"
serde = { version = "1", features = ["derive"] }
thiserror = "1"
