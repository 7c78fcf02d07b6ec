[package]
name = "task_manager"
version = "0.1.0"
edition = "2021"
publish = false

[dependencies]
bcrypt = "0.15"
axum = "0.7"
tokio = { version = "1", features = ["full"] }
serde = { version = "1", features = ["derive"] }
serde_json = "1"
sqlx = { version = "0.7", features = ["runtime-tokio", "sqlite"] }
tower-http = { version = "0.5", features = ["cors", "trace"] }
tracing-subscriber = "0.3"
dotenv = "0.15"
anyhow = "1"
jsonwebtoken = "9"
uuid = { version = "1", features = ["v4"] }
chrono = { version = "0.4", features = ["serde"] }
