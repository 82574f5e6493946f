[package]
name = "scrypto_import"
version = "0.1.0"
edition = "2021"
publish = false

[dependencies]
syn = "=1.0.109"
proc-macro2 = "=1.0.107"
serde = { version = "=1.0.229", features = ["derive"] }
serde_json = "=1.0.154"
clap = "=2.34.0"
unicode-ident = "=1.0.27"
