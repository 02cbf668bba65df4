[package]
name = "holochain_core"
version = "0.1.0"
edition = "2021"
publish = false

[dependencies]
regex = "=1.13.1"
snowflake = "=1.3.0"
multihash = "=0.8.0"
rust-base58 = "=0.0.4"
serde_json = "=1.0.154"
serde = { version = "=1.0.229", features = ["derive"] }
futures = "=0.3.34"
objekt = "=0.1.2"
structopt = "=0.3.26"
clap = "=2.34.0"
toml = "=0.5.11"
neon = "1"
