[package]
name = "kaname"
version = "0.1.0"
edition = "2021"
publish = false

[dependencies]
rmcp = { version = "*", default-features = false }
schemars = "*"
serde = { version = "1", features = ["derive"] }
serde_json = "1"
thiserror = "*"
