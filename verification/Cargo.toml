[package]
name = "updb"
version = "0.1.0"
edition = "2021"
publish = false

[dependencies]
arc-swap = "*"
imbl = "*"
thiserror = "*"
tokio = { version = "*", features = ["sync"] }
