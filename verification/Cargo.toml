[package]
name = "hl_rs"
version = "0.1.0"
edition = "2021"
publish = false

[dependencies]
alloy = { version = "*", default-features = false, features = ["std", "dyn-abi", "signer-local"] }
alloy-signer = { version = "*", default-features = false }
rust_decimal = "*"
serde = { version = "*", features = ["derive"] }
serde_json = "*"
