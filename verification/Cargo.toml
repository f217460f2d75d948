[package]
name = "monitor_services"
version = "0.1.0"
edition = "2021"
publish = false

[dependencies]
chrono = "0.4"
regex = "1"
url = "2"
shell-words = "1"
glob = "0.3"
lettre = "0.11"
reqwest = "0.12"
tokio = { version = "1", features = ["full"] }
futures = "0.3"
env_logger = "*"
garde = { version = "*", features = ["derive", "email"] }
serde = { version = "1", features = ["derive"] }
serde_json = "1"
serde-saphyr = "*"
