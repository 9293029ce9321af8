[package]
name = "axum_course"
version = "0.1.0"
edition = "2021"
publish = false

[dependencies]
uuid = { version = "=1.29.0", features = ["v4", "serde"] }
chrono = "=0.4.45"
axum = { version = "=0.8.9", features = ["ws", "multipart"] }
tokio = { version = "=1.54.1", features = ["full"] }
serde = { version = "=1.0.229", features = ["derive"] }
serde_json = "=1.0.154"
thiserror = "=2.0.21"
sqlx = { version = "=0.8.6", default-features = false, features = ["runtime-tokio", "postgres", "uuid", "derive"] }
dotenvy = "=0.15.7"
jsonwebtoken = "=9.3.1"
argon2 = "=0.5.3"
rand = "=0.8.8"
futures = "=0.3.34"
tokio-stream = "=0.1.19"
tower-http = { version = "=0.6.11", features = ["fs"] }
