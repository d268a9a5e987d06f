[package]
name = "gbk_backend"
version = "0.1.0"
edition = "2021"
publish = false

[dependencies]
encoding_rs = "*"
uuid = { version = "*", features = ["v4"] }
chrono = "*"
serde = { version = "*", features = ["derive"] }
