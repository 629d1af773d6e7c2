[package]
name = "chain_registry"
version = "0.1.0"
edition = "2021"
publish = false

[dependencies]
ckb-types = "=1.1.4"
tentacle-multiaddr = "=0.3.8"
toml = "=0.5.11"
thiserror = "=1.0.69"
lazy_static = "=1.5.1"
serde = { version = "=1.0.229", features = ["derive"] }
