[package]
name = "hello_world_api"
version = "0.1.0"
edition = "2021"
publish = false

[dependencies]
uuid = { version = "=1.27.0", features = ["v4"] }
chrono = { version = "=0.4.45", features = ["serde"] }
serde = { version = "=1.0.229", features = ["derive"] }
serde_json = "=1.0.151"
tokio = { version = "=1.53.2", features = ["full"] }
async-nats = "=0.50.0"
axum = "=0.8.9"
tower-http = { version = "=0.7.1", features = ["trace", "request-id"] }
tracing = "=0.1.44"
tracing-subscriber = { version = "=0.3.23", features = ["env-filter", "json"] }
futures-util = "=0.3.34"
dotenvy = "=0.15.7"
sqlx = { version = "=0.9.0", features = ["runtime-tokio", "sqlite"] }
async-trait = "=0.1.92"
bytes = "=1.12.1"
