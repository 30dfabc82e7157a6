[package]
name = "aingle"
version = "0.1.0"
edition = "2021"
publish = false

[dependencies]
anyhow = "1"
base64 = "0.22"
blake3 = { version = "1", default-features = false, features = ["std", "pure"] }
chrono = "0.4"
clap = { version = "4", features = ["derive"] }
data-encoding = "2"
directories = "6"
ed25519-dalek = { version = "2", features = ["rand_core"] }
flate2 = "1"
futures-util = "0.3"
humantime = "2"
keyring = "3"
rand = "0.8"
reqwest = { version = "0.12", default-features = false, features = ["json", "rustls-tls"] }
rusqlite = { version = "0.37", features = ["bundled"] }
self-replace = "1"
semver = "1"
serde = { version = "1", features = ["derive"] }
serde_json = "1"
sha2 = "0.10"
tar = "0.4"
tempfile = "3"
tokio = { version = "1", features = ["full"] }
tokio-tungstenite = { version = "0.27", features = ["rustls-tls-webpki-roots"] }
toml = "0.9"
tracing = "0.1"
tracing-subscriber = { version = "0.3", features = ["env-filter"] }
url = { version = "2", features = ["serde"] }
uuid = { version = "1", features = ["v7", "serde"] }
zip = { version = "2", default-features = false, features = ["deflate"] }
