[package]
name = "tokio_minihttp"
version = "0.1.0"
edition = "2021"
publish = false

[dependencies]
httparse = "1"
time = "0.1"
futures = "0.1"
tokio-core = "0.1"
tokio-proto = "0.1"
tokio-service = "0.1"
net2 = "0.2"
bytes = "0.4"
tokio = "*"
