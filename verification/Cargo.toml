[package]
name = "pow_migration"
version = "0.1.0"
edition = "2021"
publish = false

[dependencies]
hex = "0.4"
percentage = "0.1"
log = "0.4"
thiserror = "2"
time = "0.3"
toml = "0.8"
serde = { version = "1", features = ["derive"] }
serde_json = "1"
url = "2"
clap = { version = "4", features = ["derive"] }
jsonrpc = "0.18"
simple_logger = "5"
nimiq-keys = "2.2.0"
nimiq-hash = "2.2.0"
nimiq-serde = "2.2.0"
nimiq-vrf = "2.2.0"
