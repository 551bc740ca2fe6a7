[package]
name = "aura"
version = "0.1.0"
edition = "2021"
publish = false

[dependencies]
tokio = { version = "1", features = ["full"] }
chrono = "0.4"
urlencoding = "2"
uuid = { version = "1", features = ["v4"] }
qrcode = "0.14"
image = { version = "0.25", default-features = false, features = ["png"] }
base64 = "0.22"
serde = { version = "1", features = ["derive"] }
serde_json = "1"
tokio-tungstenite = "0.24"
futures-util = "0.3"
reqwest = { version = "0.12", default-features = false, features = ["json", "stream", "rustls-tls"] }
sqlx = { version = "0.8", default-features = false, features = ["runtime-tokio", "sqlite"] }
local-ip-address = "0.6"
log = "0.4"
anyhow = "1"
async-trait = "0.1"
env_logger = "0.11"
