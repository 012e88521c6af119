[package]
name = "sidecar"
version = "0.1.0"
edition = "2021"
publish = false

[dependencies]
anyhow = "*"
candle-core = "*"
candle-nn = "*"
candle-transformers = "*"
hf-hub = { version = "*", default-features = false, features = ["ureq"] }
safetensors = "*"
serde_json = "*"
tokenizers = { version = "*", default-features = false, features = ["onig"] }
tokio = { version = "*", features = ["rt-multi-thread", "sync", "time", "macros"] }
tokio-stream = "*"
