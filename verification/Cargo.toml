[package]
name = "image_vault"
version = "0.1.0"
edition = "2021"
publish = false

[dependencies]
image = { version = "=0.25.10", default-features = false, features = ["jpeg", "png"] }
uuid = { version = "=1.27.0", features = ["v4"] }
jsonwebtoken = { version = "=11.1.0", features = ["rust_crypto"] }
serde_json = "=1.0.151"
chrono = { version = "=0.4.45", default-features = false, features = ["clock"] }
bcrypt = "=0.19.3"
axum = { version = "=0.8.9", features = ["multipart"] }
tokio = { version = "=1.53.2", features = ["rt-multi-thread", "macros", "net"] }
serde = { version = "=1.0.229", features = ["derive"] }
thiserror = "=2.0.21"
