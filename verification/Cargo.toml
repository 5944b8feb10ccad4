[package]
name = "fixed_decimals"
version = "0.1.0"
edition = "2021"
publish = false

[dependencies]
num-bigint = "0.4"
candid = "0.10"
ic-stable-structures = "0.6"
serde = { version = "1", features = ["derive"] }
