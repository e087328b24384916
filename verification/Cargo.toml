[package]
name = "unified_body"
version = "0.1.0"
edition = "2021"
publish = false

[dependencies]
bytes = "*"
futures = "*"
h3 = "*"
h3-quinn = "*"
http-body-util = "*"
hyper = "*"
tokio = { version = "*", features = ["fs", "io-util"] }
tokio-util = { version = "*", features = ["io"] }
