[package]
name = "awgram"
version = "0.1.0"
edition = "2021"
publish = false

[dependencies]
reqwest = { version = "=0.12.28", default-features = false }
serde = { version = "=1.0.229", features = ["derive"] }
serde_json = "=1.0.154"
takecell = "=0.1.1"
teloxide = { version = "=0.17.0", default-features = false }
