[package]
name = "sharpie"
version = "0.1.0"
edition = "2021"
publish = false

[dependencies]
format_num = "*"
serde = { version = "1", features = ["derive"] }
serde_json = "1"
