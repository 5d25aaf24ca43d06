[package]
name = "rocy"
version = "0.1.0"
edition = "2021"
publish = false

[dependencies]
async-openai = { version = "=0.43.0", features = ["responses", "byot"] }
async-trait = "=0.1.92"
axum = { version = "=0.8.9", features = ["multipart"] }
axum-extra = { version = "=0.10.3", features = ["cookie-private"] }
axum-prometheus = "=0.10.1"
base64 = "=0.22.1"
cookie = "=0.18.2"
dotenvy = "=0.15.7"
oauth2 = "=5.0.0"
rand = "=0.9.5"
reqwest = { version = "=0.12.28", default-features = false, features = ["json", "rustls-tls"] }
schemars = "=1.2.3"
serde = { version = "=1.0.229", features = ["derive"] }
serde_json = "=1.0.154"
sqlx = { version = "=0.8.6", features = ["runtime-tokio", "postgres", "chrono", "migrate", "macros"] }
thiserror = "=2.0.21"
tokio = { version = "=1.54.1", features = ["full"] }
tower-http = { version = "=0.6.11", features = ["cors", "fs", "set-header", "trace"] }
tracing = "=0.1.44"
tracing-subscriber = { version = "=0.3.23", features = ["env-filter"] }
ulid = "=1.2.1"
