[package]
name = "async-rs"
version = "0.1.0"
edition = "2021"
publish = false

[dependencies]
async-compat = "0.2"
async-global-executor = "3"
async-io = "2"
async-trait = "0.1"
futures-core = "0.3"
futures-io = "0.3"
hickory-resolver = "0.25"
smol = "2"
tokio = { version = "1", features = ["net", "rt", "rt-multi-thread", "time"] }
tokio-stream = { version = "0.1", features = ["time"] }
