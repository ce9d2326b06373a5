[package]
name = "ajour_config"
version = "0.1.0"
edition = "2021"
publish = false

[dependencies]
glob = "*"
log = "*"
serde = { version = "*", features = ["derive"] }
serde_yaml = "*"
