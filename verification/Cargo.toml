[package]
name = "gideon_tasks_api"
version = "0.1.0"
edition = "2021"
publish = false

[dependencies]
regex = "1"
hmac = "0.12"
sha2 = "0.10"
hex = "0.4"
rand = "0.9"
axum = "0.8"
tokio = { version = "1", features = ["rt-multi-thread", "macros", "net", "time"] }
sqlx = { version = "0.8", default-features = false, features = ["runtime-tokio", "postgres", "uuid", "chrono", "json", "derive", "macros", "migrate"] }
async-stripe = { version = "0.41", default-features = false, features = ["runtime-tokio-hyper-rustls", "connect"] }
jsonwebtoken = "9"
argon2 = "0.5"
thiserror = "1"
chrono = { version = "0.4", features = ["serde"] }
uuid = { version = "1", features = ["v7", "serde"] }
serde = { version = "1", features = ["derive"] }
serde_json = "1"
dotenvy = "0.15"
tower-http = { version = "0.6", features = ["cors", "trace"] }
tracing = "0.1"
tracing-subscriber = { version = "0.3", features = ["env-filter"] }
