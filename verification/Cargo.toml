[package]
name = "lotto"
version = "0.1.0"
edition = "2021"
publish = false

[dependencies]
anybuf = "=1.0.0"
cosmwasm-std = { version = "=2.3.5", features = ["stargate"] }
cw-storage-plus = "=2.0.0"
nois = "=2.0.0"
schemars = "=0.8.22"
serde = { version = "=1.0.229", features = ["derive"] }
