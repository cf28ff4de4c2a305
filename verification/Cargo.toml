[package]
name = "alertbot"
version = "0.1.0"
edition = "2021"
publish = false

[dependencies]
chrono = "0.4"
dotenvy = "0.15"
levenshtein = "1"
notify = "*"
poise = "0.6"
rand = "0.9"
reqwest = { version = "0.12", features = ["json"] }
serde = { version = "1", features = ["derive"] }
serde_json = "1"
serde_with = "3"
serenity = "0.12"
tokio = { version = "1", features = ["full"] }
toml = "*"
tracing = "0.1"
