[package]
name = "x0rs"
version = "0.1.0"
edition = "2021"
publish = false

[dependencies]
http = "0.2"
isahc = "1"
serde = { version = "1", features = ["derive"] }
serde_json = "1"
thiserror = "1"
