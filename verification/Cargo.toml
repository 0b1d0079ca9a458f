[package]
name = "near-abi"
version = "0.4.3"
edition = "2021"
publish = false

[dependencies]
anyhow = "=1.0.104"
borsh = { version = "=1.8.1", features = ["unstable__schema"] }
schemars = { version = "=0.8.22", features = ["impl_json_schema"] }
semver = "=1.0.28"
serde = { version = "=1.0.229", features = ["derive"] }
serde_json = "=1.0.154"
