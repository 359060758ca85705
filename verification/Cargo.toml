[package]
name = "hodlvoice"
version = "0.1.0"
edition = "2021"
publish = false

[dependencies]
anyhow = "*"
cln-plugin = "*"
cln-rpc = "*"
log = "*"
serde_json = "*"
tokio = { version = "*", features = ["full"] }
