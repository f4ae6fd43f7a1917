[package]
name = "seed_trials"
version = "0.1.0"
edition = "2021"
publish = false

[dependencies]
clap = { version = "4", features = ["derive", "env"] }
dotenv = "0.15"
flate2 = "1"
jq-rs = "0.4"
jsonxf = "1"
rand = "0.9"
reqwest = { version = "0.12", features = ["blocking", "multipart"] }
serde = { version = "1", features = ["derive"] }
serde_json = "1"
subprocess = "0.2"
tar = "0.4"
tempfile = "3"
tracing = "0.1"
tracing-subscriber = "0.3"
walkdir = "2"
