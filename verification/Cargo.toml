[package]
name = "era_harness"
version = "0.1.0"
edition = "2021"
publish = false

[dependencies]
ethabi = "18"
hex = "0.4"
rand = "0.8"
serde_json = "1"
sha2 = "0.10"
sha3 = "0.10"
