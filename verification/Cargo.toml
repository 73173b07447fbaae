[package]
name = "neko"
version = "0.1.0"
edition = "2021"
publish = false

[dependencies]
axum = "=0.5.17"
bson = { version = "=2.15.0", features = ["chrono-0_4"] }
chrono = "=0.4.45"
config = "=0.13.4"
dotenv = "=0.15.0"
futures-util = "=0.3.34"
mongodb = "=2.8.2"
serde = { version = "=1.0.229", features = ["derive"] }
tokio = { version = "=1.53.2", features = ["rt-multi-thread", "macros", "time", "sync"] }
tracing = "=0.1.44"
tracing-subscriber = "=0.3.23"
