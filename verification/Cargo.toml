[package]
name = "kattis_submit"
version = "0.1.0"
edition = "2021"
publish = false

[dependencies]
clap = "2"
colored = "2"
regex = "1"
reqwest = { version = "0.11", default-features = false, features = ["cookies", "multipart", "rustls-tls"] }
scraper = "*"
selectors = "*"
tokio = { version = "1", features = ["rt-multi-thread"] }
