[package]
name = "aigis"
version = "0.1.0"
edition = "2021"
publish = false

[dependencies]
serde_json = "=1.0.151"
uuid = { version = "=1.27.0", features = ["v5"] }
html2md = "=0.2.17"
anyhow = "1"
async-trait = "0.1"
atrium-api = "*"
bsky-sdk = "*"
dotenvy = "0.15"
futures-util = "0.3"
genai = "*"
metrics = "*"
once_cell = "1"
regex = "1"
reqwest = "*"
rocketman = "*"
serde = { version = "1", features = ["derive"] }
time = { version = "0.3", features = ["formatting"] }
tokio = { version = "1", features = ["full"] }
tracing = "0.1"
tracing-subscriber = "0.3"
