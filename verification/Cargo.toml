[package]
name = "user_accounts"
version = "0.1.0"
edition = "2021"
publish = false

[dependencies]
anyhow = "=1.0.104"
argon2 = { version = "=0.5.3", features = ["std"] }
askama = "=0.16.1"
askama_web = { version = "=0.16.0", features = ["axum-0.8"] }
async-trait = "=0.1.92"
asynk-strim = "=0.1.5"
axum = { version = "=0.8.9", features = ["macros"] }
axum_csrf = { version = "=0.12.0", features = ["layer"] }
axum_session = "=0.22.0"
axum_session_auth = "=0.22.0"
axum_session_sqlx = "=0.12.0"
chrono = { version = "=0.4.45", features = ["serde"] }
config = { version = "=0.15.27", default-features = false }
datastar = { version = "=0.4.1", features = ["axum"] }
jsonwebtoken = "=9.3.1"
serde = { version = "=1.0.229", features = ["derive"] }
serde_json = { version = "=1.0.154", features = ["preserve_order"] }
sqlx = { version = "=0.9.0", default-features = false, features = ["runtime-tokio", "postgres", "uuid", "chrono", "derive"] }
tokio = { version = "=1.54.1", features = ["macros", "rt-multi-thread", "net", "signal"] }
tower = "=0.5.3"
tower-http = { version = "=0.7.1", features = ["catch-panic", "compression-gzip", "compression-br", "cors", "request-id", "fs", "timeout", "trace"] }
tracing = "=0.1.44"
uuid = { version = "=1.29.0", features = ["v4", "serde"] }
validator = { version = "=0.20.0", features = ["derive"] }
