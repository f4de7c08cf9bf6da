[package]
name = "trading_engine"
version = "0.1.0"
edition = "2021"
publish = false

[dependencies]
tokio = { version = "1", features = ["sync", "rt-multi-thread", "macros", "time"] }
uuid = { version = "1", features = ["v4"] }
chrono = "0.4"
futures = "0.3"
tracing = "0.1"
