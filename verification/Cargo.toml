[package]
name = "motorchik"
version = "0.1.0"
edition = "2021"
publish = false

[dependencies]
chrono = "0.4"
log = "0.4"
once_cell = "1"
psutil = { version = "3", default-features = false, features = ["host"] }
regex = "1"
reqwest = { version = "0.11", default-features = false, features = ["json", "rustls-tls"] }
scraper = "*"
semver = { version = "1", features = ["serde"] }
serde = { version = "1", features = ["derive"] }
serde_json = "1"
serde_repr = "0.1"
serenity = { version = "0.11", features = ["chrono"] }
sys-info = "0.9"
thiserror = "1"
tokio = { version = "1", features = ["macros", "rt-multi-thread", "time"] }
