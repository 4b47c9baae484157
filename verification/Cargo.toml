[package]
name = "rustack"
version = "0.1.0"
edition = "2021"
publish = false

[dependencies]
quick-xml = "=0.37.5"
chrono = "=0.4.45"
uuid = { version = "=1.29.0", features = ["v4"] }
http = "=1.5.0"
serde = { version = "=1.0.229", features = ["derive"] }
serde_json = "=1.0.154"
toml = "=0.8.23"
heck = "=0.5.0"
percent-encoding = "=2.3.2"
base64 = "=0.22.1"
dashmap = "6"
