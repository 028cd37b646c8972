[package]
name = "auth_sessions"
version = "0.1.0"
edition = "2021"
publish = false

[dependencies]
jsonwebtoken = "=9.3.1"
serde = { version = "=1.0.229", features = ["derive"] }
serde_json = "=1.0.151"
base64 = "=0.22.1"
ring = "=0.17.14"
chrono = "=0.4.45"
redis = "=1.7.1"

[dev-dependencies]
uuid = "=1.27.0"
