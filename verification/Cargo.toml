[package]
name = "echonet_lite"
version = "0.1.0"
edition = "2021"
publish = false

[dependencies]
serde = { version = "1", features = ["derive"] }
serde_repr = "0.1"
num-derive = "0.4"
num-traits = "0.2"
phf = { version = "0.11", features = ["macros"] }
serde_json = "1"
anyhow = "1"
