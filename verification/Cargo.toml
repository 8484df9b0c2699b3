[package]
name = "local_voice"
version = "0.1.0"
edition = "2021"
publish = false

[dependencies]
serde = { version = "1", features = ["derive"] }
serde_json = "1"
tokio = { version = "1", features = ["process", "time", "rt", "macros"] }
arboard = { version = "3", default-features = false }
enigo = "0.2"
