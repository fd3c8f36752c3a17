[package]
name = "airwin"
version = "0.1.0"
edition = "2021"
publish = false

[dependencies]
anyhow = "1"
btleplug = "0.11"
bytes = "1"
chrono = "0.4"
env_logger = "0.10"
hex = "0.4"
hostname = "0.3"
local-ip-address = "0.5"
mdns-sd = "0.7"
mime_guess = "2"
rand = "0.8"
rcgen = "0.12"
serde = { version = "1", features = ["derive"] }
serde_json = "1"
sha2 = "0.10"
socket2 = "0.5"
thiserror = "1"
tokio = { version = "1", features = ["full"] }
tokio-native-tls = "0.3"
tokio-rustls = "0.24"
tracing = "0.1"
uuid = { version = "1", features = ["v4"] }
