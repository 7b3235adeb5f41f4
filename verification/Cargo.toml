[package]
name = "rust_hw"
version = "0.1.0"
edition = "2021"
publish = false

[dependencies]
anyhow = "1"
async-channel = "*"
colored = "*"
futures = "0.3"
lazy_static = "1"
pilota = "*"
regex = "1"
scoped-tls = "1"
tokio = { version = "1", features = ["sync", "rt-multi-thread", "macros"] }
tracing = "*"
tracing-subscriber = "*"
volo = "*"
volo-thrift = "*"
