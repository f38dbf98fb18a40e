[package]
name = "breez_backend"
version = "0.1.0"
edition = "2021"
publish = false

[dependencies]
anyhow = "1"
async-trait = "0.1"
cdk-common = "=0.15.1"
futures-core = "0.3"
hex = "0.4"
tokio = { version = "1", features = ["sync"] }
tokio-stream = "0.1"
tracing = "0.1"
