[package]
name = "wasmedge_quickjs"
version = "0.1.0"
edition = "2021"
publish = false

[dependencies]
crypto-wasi = "*"
encoding = "0.2"
tokio = { version = "1", features = ["rt", "time", "sync"] }
