[package]
name = "cosmos_document"
version = "0.1.0"
edition = "2021"
publish = false

[dependencies]
azure_core = "=0.1.1"
http = "=0.2.12"
serde = { version = "=1.0.229", features = ["derive"] }
serde_json = "=1.0.154"
