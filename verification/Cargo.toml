[package]
name = "wingman"
version = "0.1.0"
edition = "2021"
publish = false

[dependencies]
aes-gcm = "=0.10.3"
base64 = "=0.22.1"
chrono = "=0.4.45"
dirs = "=5.0.1"
hostname = "=0.4.2"
keyring = "3"
log = "=0.4.34"
machine-uid = "=0.5.4"
md-5 = "=0.10.6"
nanoid = "=0.4.0"
rand = "=0.8.8"
reqwest = { version = "=0.12.28", default-features = false, features = ["json", "rustls-tls"] }
rusqlite = { version = "0.32", features = ["bundled"] }
serde = { version = "=1.0.229", features = ["derive"] }
serde_json = "=1.0.154"
sha1 = "=0.10.7"
sha2 = "=0.10.9"
thiserror = "=1.0.69"
tokio = { version = "=1.54.1", features = ["rt", "macros", "time"] }
urlencoding = "=2.1.3"
uuid = { version = "=1.29.0", features = ["v4", "v7"] }
