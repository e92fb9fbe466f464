[package]
name = "coerce"
version = "0.1.0"
edition = "2021"
publish = false

[dependencies]
uuid = { version = "1", features = ["v4"] }
redis = { version = "*", default-features = false, features = ["aio", "tokio-comp"] }
tokio = { version = "1", features = ["rt-multi-thread", "sync", "net", "io-util", "time", "macros"] }
tokio-util = { version = "0.7", features = ["codec"] }
futures = "0.3"
chrono = { version = "0.4", default-features = false, features = ["clock", "std"] }
protobuf = "3"
serde = { version = "1", features = ["derive"] }
axum = "*"
parking_lot = "0.12"
anyhow = "1"
tracing = "0.1"
