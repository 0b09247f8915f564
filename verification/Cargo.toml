[package]
name = "socks5"
version = "0.1.0"
edition = "2021"
publish = false

[dependencies]
anyhow = "1"
async-dns = "*"
async-executor = "1"
async-io = "*"
bytes = "1"
futures = "0.3"
futures-lite = "*"
tokio = { version = "1", features = ["io-util", "net", "rt", "time"] }
