[package]
name = "ddns"
version = "0.1.0"
edition = "2021"
publish = false

[dependencies]
if-addrs = "*"
reqwest = { version = "*", default-features = false }
serde = { version = "*", features = ["derive"] }
serde_json = "*"
tokio = { version = "*", features = ["macros", "rt-multi-thread"] }
