[package]
name = "models_endpoint"
version = "0.1.0"
edition = "2021"
publish = false

[dependencies]
async-trait = "0.1"
http = "1"
serde_json = { version = "1", features = ["preserve_order"] }
tokio = { version = "1", default-features = false, features = ["time"] }
tracing = "0.1"
