[package]
name = "slack_status"
version = "0.1.0"
edition = "2021"
publish = false

[dependencies]
chrono = "=0.4.45"
clap = "=2.34.0"
console = "0.10"
dialoguer = "=0.5.1"
directories = "=2.0.2"
fern = "=0.5.9"
gh-emoji = "=1.0.9"
log = "=0.4.34"
reqwest = { version = "=0.10.10", features = ["blocking", "json"] }
serde = { version = "=1.0.229", features = ["derive"] }
serde_json = "=1.0.154"
toml = "=0.5.11"
