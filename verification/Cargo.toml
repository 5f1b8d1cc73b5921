[package]
name = "drogue_core"
version = "0.1.0"
edition = "2021"
publish = false

[dependencies]
rustls = "0.19"
tokio = { version = "1", default-features = false, features = ["sync", "rt", "time", "macros"] }
serde = { version = "1", features = ["derive"] }
serde_json = "1"
