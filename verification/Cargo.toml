[package]
name = "supuraisu"
version = "0.1.4"
edition = "2021"
publish = false

[dependencies]
anyhow = "=1.0.104"
base64 = "=0.22.1"
hyper-util = { version = "=0.1.21", features = ["tokio"] }
keyring = { version = "=3.6.3", features = ["apple-native"] }
rand = "=0.8.8"
reqwest = { version = "=0.12.28", default-features = false, features = ["json", "rustls-tls"] }
rustls = { version = "=0.23.46", default-features = false, features = ["ring", "std", "tls12", "logging"] }
rustls-pki-types = { version = "=1.15.1", features = ["std"] }
serde = { version = "=1.0.229", features = ["derive"] }
serde_json = "=1.0.154"
sha2 = "=0.10.9"
tokio = { version = "=1.54.1", features = ["full"] }
tokio-rustls = { version = "=0.26.6", default-features = false, features = ["ring", "tls12", "logging"] }
tokio-stream = { version = "=0.1.19", features = ["net"] }
tonic = "=0.14.9"
tower-service = "=0.3.3"
url = "=2.5.8"
