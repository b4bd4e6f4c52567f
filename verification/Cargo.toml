[package]
name = "cw_dex"
version = "0.1.0"
edition = "2021"
publish = false

[dependencies]
cosmwasm-std = "=1.5.11"
cw20 = "=1.1.2"
cw-utils = "=1.0.3"
cw-asset = "=3.1.1"
serde = "=1.0.229"
schemars = "=0.8.22"
