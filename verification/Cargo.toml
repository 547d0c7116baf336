[package]
name = "rusqlite_async"
version = "0.1.0"
edition = "2021"
publish = false

[dependencies]
async-channel = "=2.5.0"
base64 = "=0.22.1"
rusqlite = "=0.31.0"
rustler = "=0.31.0"
tokio = { version = "=1.54.1", features = ["rt", "time", "net"] }
uuid = { version = "=1.29.0", features = ["v4"] }
