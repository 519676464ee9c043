[package]
name = "tiled-json-rs"
version = "0.2.0"
edition = "2021"
publish = false

[dependencies]
base64 = "0.13"
serde = "1"
serde_json = "1"
