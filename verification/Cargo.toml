[package]
name = "serve"
version = "0.1.0"
edition = "2021"
publish = false

[dependencies]
crc32fast = "*"
clap = { version = "*", features = ["derive"] }
colored = "*"
http-body-util = "*"
hyper = { version = "*", features = ["full"] }
hyper-rustls = "*"
hyper-util = { version = "*", features = ["full"] }
rcgen = "*"
tokio = { version = "*", features = ["full"] }
tokio-rustls = "*"
