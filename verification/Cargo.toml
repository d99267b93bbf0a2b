[package]
name = "nucypher_core"
version = "0.1.0"
edition = "2021"
publish = false

[dependencies]
umbral-pre = { version = "=0.11.0", features = ["default-serialization"] }
ferveo-pre-release = "=0.3.0"
base64 = "=0.22.1"
