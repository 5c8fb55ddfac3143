[package]
name = "kcp"
version = "0.1.0"
edition = "2021"
publish = false

[dependencies]
bytes = "=1.12.1"
futures = "0.3"
hashlink = "0.10"
log = "0.4"
once_cell = "1"
parking_lot = "0.12"
rand = "=0.8.8"
tokio = { version = "1", features = ["macros", "net", "rt", "sync", "time"] }
tokio-util = { version = "0.7", features = ["codec", "net"] }
