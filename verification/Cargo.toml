[package]
name = "eindhoven_events"
version = "0.1.0"
edition = "2021"
publish = false

[dependencies]
chrono = { version = "0.4", features = ["serde"] }
chrono-tz = "*"
env_logger = "*"
geocoding = "0.4"
log = "0.4"
regex = "1"
reqwest = { version = "0.11", features = ["blocking"] }
scraper = "*"
serde = { version = "1", features = ["derive"] }
serde_json = "1"
url = "2"
uuid = { version = "1", features = ["v4"] }
