[package]
name = "dxcllistener"
version = "0.1.0"
edition = "2021"
publish = false

[dependencies]
dxclparser = "=1.0.1"
thiserror = "=1.0.69"
tokio = { version = "=1.54.1", features = ["io-util", "macros", "net", "rt", "rt-multi-thread", "sync", "time"] }
