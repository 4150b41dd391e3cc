[package]
name = "sky_bet_roulette"
version = "0.1.0"
edition = "2021"
publish = false

[dependencies]
uuid = { version = "=1.27.0", features = ["v4", "serde"] }
rand = "=0.9.5"
chrono = "=0.4.45"
jsonwebtoken = "=9.3.1"
serde_json = "=1.0.151"
serde = { version = "1", features = ["derive"] }
axum = "=0.8.9"
tokio = { version = "1", features = ["rt-multi-thread", "net", "sync", "macros", "time"] }
tracing = "0.1"
tracing-subscriber = "0.3"
utoipa = "5"
