[package]
name = "websockets"
version = "0.1.0"
edition = "2021"

[dependencies]
anyhow = "1"
base64 = "0.22"
bytes = "1"
sha1 = "0.10"
tokio = { version = "1", features = ["net", "io-util", "rt-multi-thread", "macros"] }
