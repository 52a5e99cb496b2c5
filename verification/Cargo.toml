[package]
name = "exchange_rate_bot"
version = "0.1.0"
edition = "2021"
publish = false

[dependencies]
chrono = "0.4"
dotenv = "0.15"
env_logger = "0.11"
image = { version = "0.25", default-features = false, features = ["png"] }
log = "0.4"
percent-encoding = "2"
plotters = "0.3"
reqwest = { version = "0.11", default-features = false, features = ["rustls-tls"] }
rusqlite = { version = "0.31", features = ["bundled"] }
serde_json = "1"
serenity = "0.12"
thiserror = "1"
tokio = { version = "1", features = ["macros", "rt-multi-thread", "time"] }
