[package]
name = "unstake"
version = "0.1.0"
edition = "2021"
publish = false

[dependencies]
cosmwasm-std = { version = "=2.3.5", features = ["cosmwasm_1_2"] }
cosmwasm-schema = "=2.3.5"
cw-storage-plus = "=2.0.0"
cw-utils = "=2.0.0"
cw2 = "=2.0.0"
schemars = "=0.8.22"
serde = "=1.0.229"
thiserror = "=1.0.69"
kujira = "=1.3.0"
kujira-ghost = "=1.3.0"
monetary = "=0.0.9"
