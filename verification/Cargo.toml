[package]
name = "aiqa"
version = "0.1.0"
edition = "2021"
publish = false

[dependencies]
async-openai = { version = "=0.42.1", features = ["chat-completion"] }
base64 = "=0.22.1"
headless_chrome = "=0.9.0"
parking_lot = "=0.12.5"
pulldown-cmark = "=0.13.4"
serde = { version = "=1.0.229", features = ["derive"] }
serde_json = "=1.0.151"
