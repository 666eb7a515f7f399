[package]
name = "loaa"
version = "0.1.0"
edition = "2021"
publish = false

[dependencies]
argon2 = "=0.6.0"
axum = "=0.8.9"
base64 = "=0.23.1"
chrono = "=0.4.45"
jsonwebtoken = { version = "=11.1.0", features = ["rust_crypto"] }
serde = { version = "=1.0.229", features = ["derive"] }
serde_json = "=1.0.151"
sha2 = "=0.11.0"
tokio = { version = "=1.53.2", features = ["macros", "rt-multi-thread", "sync"] }
tower-sessions = "=0.15.0"
uuid = { version = "=1.27.0", features = ["v4"] }
