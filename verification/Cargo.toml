[package]
name = "auth_guard"
version = "0.1.0"
edition = "2021"
publish = false

[dependencies]
actix-web = "=4.18.1"
anyhow = "=1.0.104"
base64 = "=0.22.1"
bcrypt = "=0.19.3"
chrono = "=0.4.45"
dashmap = "=6.2.1"
env_logger = "=0.11.11"
futures-util = "=0.3.34"
jsonwebtoken = "=9.3.1"
lazy_static = "=1.5.1"
log = "=0.4.34"
rand = "=0.8.8"
rbatis = "=4.9.8"
rbdc-mysql = "=4.9.6"
regex = "=1.13.1"
serde = { version = "=1.0.229", features = ["derive"] }
serde_json = "=1.0.154"
thiserror = "=1.0.69"
toml = "=0.8.23"
