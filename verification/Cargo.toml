[package]
name = "rookrant_serv"
version = "0.1.0"
edition = "2021"
publish = false

[dependencies]
leon = "=3.0.3"
serde = { version = "=1.0.229", features = ["derive"] }
serde_json = "=1.0.154"
base64 = "=0.22.1"
rand = "=0.8.8"
chrono = { version = "=0.4.45", features = ["serde"] }
oauth2 = "=4.4.2"
rcgen = "=0.13.2"
jsonwebtoken = "=9.3.1"
thiserror = "=1.0.69"
log = "=0.4.35"
env_logger = "=0.11.11"
async-trait = "=0.1.92"
axum = "=0.7.9"
axum-extra = { version = "=0.9.6", features = ["cookie"] }
axum-server = { version = "=0.7.3", features = ["tls-rustls"] }
cookie = "=0.18.2"
maud = { version = "=0.26.0", features = ["axum"] }
lazy-regex = "=3.6.2"
clap = { version = "=4.6.7", features = ["derive"] }
tokio = { version = "=1.54.1", features = ["full"] }
tower = "=0.4.13"
tower-http = { version = "=0.5.2", features = ["fs", "trace"] }
mongodb = { version = "=2.8.2", features = ["bson-chrono-0_4"] }
