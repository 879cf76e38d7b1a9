[package]
name = "idklol"
version = "0.1.0"
edition = "2021"
publish = false

[dependencies]
base64 = "0.22"
serde = { version = "1", features = ["derive"] }
serde_json = "1"
serde_urlencoded = "0.7"
dotenvy = "0.15"
tokio = { version = "1", features = ["macros", "rt-multi-thread", "time", "signal", "io-std", "io-util", "sync"] }
tokio-stream = "0.1"
futures = "0.3"
async-trait = "0.1"
tracing = "0.1"
tracing-subscriber = "0.3"
tracing-appender = "0.2"
tracing-bunyan-formatter = "0.3"
reqwest = { version = "0.12", default-features = false, features = ["json"] }
async-nats = "*"
uuid = { version = "1", features = ["v4"] }
chrono = "0.4"
