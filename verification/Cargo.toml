[package]
name = "rbxsync"
version = "0.1.0"
edition = "2021"
publish = false

[dependencies]
serde_json = "1"
sha2 = "0.10"
serde = { version = "1", features = ["derive"] }
serde_yaml = "0.9"
anyhow = "1"
dotenvy = "0.15"
reqwest = { version = "0.12", default-features = false, features = ["json", "multipart"] }
tokio = { version = "1", features = ["rt-multi-thread", "macros", "time", "fs"] }
