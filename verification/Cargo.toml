[package]
name = "hdcomm"
version = "0.1.0"
edition = "2021"
publish = false

[dependencies]
tokio = { version = "1", features = ["rt-multi-thread", "sync", "macros", "time", "io-util"] }
tokio-util = { version = "0.7", features = ["codec"] }
tokio-serial = "5"
futures = "0.3"
bytes = "1"
s_curve = "*"
thiserror = "1"
