[package]
name = "shai_core"
version = "0.1.0"
edition = "2021"
publish = false

[dependencies]
serde_json = "=1.0.154"
uuid = { version = "=1.29.0", features = ["v4"] }
chrono = "=0.4.45"
fastrand = "=2.5.0"
termimad = "=0.35.5"
serde = { version = "=1.0.229", features = ["derive"] }
openai_dive = "=1.4.3"
tokio = { version = "=1.54.1", features = ["full"] }
tokio-util = "=0.7.20"
async-trait = "=0.1.92"
futures = "=0.3.34"
tracing = "=0.1.44"
dirs = "=7.0.0"
json_comments = "=0.2.2"
clap = { version = "=4.6.7", features = ["derive"] }
reqwest = "=0.12.28"
schemars = "*"
