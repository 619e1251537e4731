[package]
name = "agent_core"
version = "0.1.0"
edition = "2021"
publish = false

[dependencies]
anyhow = "*"
base64 = "*"
ctrlc = "*"
ed25519-dalek = "*"
quick-xml = "*"
reqwest = { version = "*", default-features = false, features = ["blocking"] }
serde = { version = "*", features = ["derive"] }
serde_json = "*"
toml = "*"
tracing = "*"
tracing-appender = "*"
tracing-subscriber = "*"
url = "*"
uuid = { version = "*", features = ["v4"] }
