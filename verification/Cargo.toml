[package]
name = "dashboard_auth"
version = "0.1.0"
edition = "2021"
publish = false

[dependencies]
axum = { version = "0.6", default-features = false, features = ["headers", "json"] }
base64 = "0.21"
jsonwebtoken = "8"
once_cell = "1"
serde = { version = "1", features = ["derive"] }
serde_json = "1"
sha2 = "0.10"
