[package]
name = "termineer"
version = "0.1.0"
edition = "2021"
publish = false

[dependencies]
serde = { version = "=1.0.229", features = ["derive"] }
serde_json = "=1.0.154"
serde_yaml = "=0.9.34"
scraper = "=0.29.0"
handlebars = "=6.4.4"
glob = "=0.3.4"
dirs = "=7.0.0"
urlencoding = "2"
base64 = "0.22"
quick-xml = "0.37"
anyhow = "1"
thiserror = "2"
tokio = { version = "1", features = ["fs", "process", "rt-multi-thread", "macros", "time", "io-util", "sync"] }
reqwest = { version = "0.12", default-features = false, features = ["json", "rustls-tls"] }
crossterm = "0.28"
ratatui = "0.29"
image = { version = "0.25", default-features = false, features = ["png", "jpeg"] }
