[package]
name = "kurp"
version = "0.1.0"
edition = "2021"
publish = false

[dependencies]
unicase = "2"
regex = "1"
image = { version = "0.24", default-features = false, features = ["png", "jpeg", "webp"] }
async-compression = { version = "0.4", features = ["tokio", "gzip", "deflate", "brotli"] }
futures = "0.3"
moka = { version = "0.12", features = ["sync"] }
bytes = "1"
tokio = { version = "1", features = ["full"] }
axum = { version = "0.6", features = ["ws", "headers"] }
hyper = { version = "0.14", features = ["full"] }
reqwest = { version = "0.11", default-features = false, features = ["json", "stream"] }
tokio-tungstenite = "0.20"
ractor = "0.9"
async-trait = "0.1"
headers = "0.3"
serde = { version = "1", features = ["derive"] }
serde_json = "1"
serde_yaml = "0.9"
config = { version = "0.13", default-features = false, features = ["yaml"] }
log = "0.4"
env_logger = "0.10"
