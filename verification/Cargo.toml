[package]
name = "scaffold"
version = "0.1.0"
edition = "2021"
publish = false

[dependencies]
anyhow = "1"
colored = "2"
dialoguer = "0.10"
lazy_static = "1"
reqwest = { version = "0.11", features = ["blocking"] }
