[package]
name = "auth_service"
version = "0.1.0"
edition = "2021"
publish = false

[dependencies]
argon2 = "*"
axum = "*"
axum-extra = { version = "*", features = ["cookie"] }
rand = "*"
redis = "*"
serde = { version = "*", features = ["derive"] }
serde_json = "*"
sqlx = { version = "*", features = ["postgres", "runtime-tokio"], default-features = false }
tokio = { version = "*", features = ["full"] }
tower-http = { version = "*", features = ["cors", "fs"] }
uuid = { version = "*", features = ["v4"] }
