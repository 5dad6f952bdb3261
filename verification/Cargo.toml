[package]
name = "local_hotel"
version = "0.1.0"
edition = "2021"
publish = false

[dependencies]
argon2 = "=0.5.3"
jsonwebtoken = "=9.3.1"
rand_core = { version = "=0.6.4", features = ["std"] }
serde = { version = "1", features = ["derive"] }
serde_json = "1"
axum = "=0.8.9"
axum-extra = { version = "=0.12.6", features = ["cookie"] }
sqlx = { version = "=0.9.0", features = ["runtime-tokio", "postgres", "chrono", "bigdecimal"] }
tokio = { version = "1", features = ["full"] }
tower-http = { version = "0.6", features = ["cors"] }
chrono = { version = "=0.4.45", features = ["serde"] }
time = "=0.3.55"
dotenv = "0.15"
tracing = "0.1"
tracing-subscriber = { version = "0.3", features = ["env-filter"] }
bigdecimal = { version = "=0.4.11", features = ["serde"] }
