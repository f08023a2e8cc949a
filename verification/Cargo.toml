[package]
name = "rmp_rpc"
version = "0.1.0"
edition = "2021"
publish = false

[dependencies]
rmpv = "=1.3.1"
num-traits = "=0.2.19"
bytes = "=1.12.1"
futures = "=0.3.34"
log = "=0.4.35"
tokio = { version = "=1.54.1", features = ["rt", "net"] }
tokio-util = { version = "=0.7.20", features = ["codec", "compat"] }
