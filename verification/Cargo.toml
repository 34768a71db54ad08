[package]
name = "corevpn"
version = "0.1.0"
edition = "2021"
publish = false

[dependencies]
sha2 = "=0.10.9"
hmac = "=0.12.1"
uuid = { version = "=1.29.0", features = ["v4"] }
chrono = "=0.4.45"
hostname = "=0.4.2"
base64 = "=0.22.1"
subtle = "=2.6.1"
rand = "=0.8.8"
urlencoding = "=2.1.3"
zeroize = "=1.9.1"
serde = { version = "=1.0.229", features = ["derive"] }
serde_json = "=1.0.154"
toml = "=0.8.23"
ipnet = "2"
