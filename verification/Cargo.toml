[package]
name = "https_dns"
version = "0.1.0"
edition = "2021"
publish = false

[dependencies]
trust-dns-proto = "*"
url = "*"
rand = "*"
reqwest = { version = "*", default-features = false, features = ["gzip", "brotli"] }
tokio = { version = "*", features = ["rt-multi-thread", "macros", "net"] }
clap = { version = "*", features = ["derive"] }
anyhow = "*"
tracing = "*"
tracing-subscriber = "*"
tap = "*"
http = "*"
