[package]
name = "wasmcloud_runtime"
version = "0.1.0"
edition = "2021"
publish = false

[dependencies]
anyhow = "=1.0.104"
async-trait = "=0.1.92"
http = "=0.2.12"
tokio = { version = "=1.54.1", features = ["io-util", "rt-multi-thread", "sync"] }
tracing = "=0.1.44"
wascap = "=0.16.2"
wasmparser = "=0.262.0"
