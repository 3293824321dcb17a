[package]
name = "taskbane"
version = "0.1.0"
edition = "2021"
publish = false

[dependencies]
uuid = { version = "=1.27.0", features = ["v4"] }
webauthn-rs = { version = "=0.5.5", features = ["danger-allow-state-serialisation"] }
serde = { version = "=1.0.229", features = ["derive"] }
serde_json = "=1.0.151"
headers-accept = "=0.3.0"
mediatype = "=0.21.0"
axum = "=0.8.9"
tokio = { version = "=1.53.2", features = ["full"] }
tower-sessions = "=0.15.0"
