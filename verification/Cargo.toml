[package]
name = "evmbin"
version = "0.1.0"
edition = "2021"
publish = false

[dependencies]
rustc-hex = "1.0"
ethereum-types = "0.4"
parity-bytes = "0.1"
docopt = "1.0"
serde = { version = "1.0", features = ["derive"] }
env_logger = "0.5"
