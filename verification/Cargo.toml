[package]
name = "scraper"
version = "0.1.0"
edition = "2021"
publish = false

[dependencies]
anyhow = "1"
chrono = { version = "=0.4.45", features = ["serde"] }
chrono-tz = "=0.10.4"
crates_io_api = "=0.12.0"
db-dump = "=0.10.0"
octocrab = "=0.40.0"
reqwest = "=0.13.5"
serde = { version = "1", features = ["derive"] }
serde_json = "=1.0.154"
serde_yaml = "0.9"
tokio = { version = "1", features = ["macros", "rt-multi-thread"] }
url = { version = "=2.5.8", features = ["serde"] }
