[package]
name = "tendermint_client"
version = "0.1.0"
edition = "2021"
publish = false

[dependencies]
tendermint-light-client = { version = "=0.40.4", default-features = false, features = ["rust-crypto"] }
tendermint = "=0.40.4"
chrono = "=0.4.45"
serde = { version = "=1.0.229", features = ["derive"] }
serde_json = "=1.0.154"
parity-scale-codec = { version = "=3.7.5", features = ["derive"] }
log = "=0.4.34"
sp-std = "=14.0.0"
frame-support = { version = "*", default-features = false }
frame-system = { version = "*", default-features = false }

[dev-dependencies]
tendermint-testgen = "=0.40.4"
