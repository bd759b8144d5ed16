[package]
name = "abci"
version = "0.1.0"
edition = "2021"
publish = false

[dependencies]
bytes = "=1.12.1"
prost = "0.9"
tendermint-proto = "=0.24.0-pre.1"
serde = { version = "=1.0.229", features = ["derive"] }
