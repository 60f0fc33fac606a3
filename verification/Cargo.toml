[package]
name = "websockify_rs"
version = "0.1.0"
edition = "2021"
publish = false

[dependencies]
tokio = { version = "=1.53.2", features = ["rt-multi-thread", "net", "sync", "io-util", "macros", "time", "signal"] }
axum = { version = "=0.8.9", features = ["ws"] }
axum-server = "=0.8.0"
futures = "=0.3.34"
clap = { version = "=4.6.7", features = ["derive"] }
tower-http = { version = "=0.7.1", features = ["fs"] }
tracing = "=0.1.44"
tracing-subscriber = "=0.3.23"
