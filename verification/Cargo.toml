[package]
name = "json_config"
version = "0.1.0"
edition = "2021"
publish = false

[dependencies]
dirs = "*"
serde = "1"
serde_json = "1"
