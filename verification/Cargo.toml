[package]
name = "rust_atlanta"
version = "0.1.0"
edition = "2021"
publish = false

[dependencies]
uuid = "=1.27.0"
chrono = "=0.4.45"
validator = "=0.21.0"
getrandom = "=0.4.3"
