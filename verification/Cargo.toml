[package]
name = "moron"
version = "0.1.0"
edition = "2021"
publish = false

[dependencies]
anyhow = "1"
chromiumoxide = { version = "0.7", default-features = false, features = ["tokio-runtime"] }
clap = { version = "4", features = ["derive"] }
futures = "0.3"
kokoro-tts = "*"
serde = { version = "1", features = ["derive"] }
serde_json = "1"
thiserror = "2"
tokio = { version = "1", features = ["rt-multi-thread", "macros", "time"] }
