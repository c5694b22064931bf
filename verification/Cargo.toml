[package]
name = "vrc_one"
version = "0.1.0"
edition = "2021"
publish = false

[dependencies]
base64 = "0.22"
dirs = "*"
futures-util = "=0.3.34"
http = "=1.5.0"
log = "=0.4.34"
reqwest = { version = "0.12", features = ["json"] }
serde = { version = "=1.0.229", features = ["derive"] }
serde_json = "=1.0.154"
sha2 = "0.10"
tokio = { version = "=1.54.1", features = ["fs", "io-util", "macros", "rt-multi-thread", "sync", "time"] }
tokio-tungstenite = { version = "=0.30.0", features = ["native-tls"] }
url = "2"
