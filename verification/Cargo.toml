[package]
name = "rate_limit_client"
version = "0.1.0"
edition = "2021"
publish = false

[dependencies]
dashmap = "*"
governor = "*"
reqwest = "0.12"
tokio = { version = "1", features = ["macros", "rt-multi-thread", "time"] }
url = "2"
