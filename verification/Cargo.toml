[package]
name = "slack_morphism"
version = "0.1.0"
edition = "2021"
publish = false

[dependencies]
serde_json = "1"
base64 = "0.13"
url = "2"
hmac = "0.12"
sha2 = "0.10"
hyper = { version = "0.14", features = ["client", "http1", "http2", "tcp"] }
hyper-rustls = "0.24"
