[package]
name = "alarm_dot_com"
version = "0.1.0"
edition = "2021"
publish = false

[dependencies]
regex = "1"
reqwest = { version = "0.12", default-features = false, features = ["json", "cookies", "rustls-tls"] }
scraper = "*"
serde = { version = "1", features = ["derive"] }
serde_json = "1"
thiserror = "*"
tracing = "0.1"
url = "2"
