[package]
name = "kubeport"
version = "0.1.0"
edition = "2021"
publish = false

[dependencies]
anyhow = "1"
axum = { version = "0.7", features = ["ws"] }
bincode = "1"
clap = { version = "4", features = ["derive"] }
dashmap = "5.5"
fastwebsockets = { version = "0.8", features = ["upgrade"] }
flume = "0.11"
futures-util = { version = "0.3", features = ["sink"] }
httparse = "1"
hyper = { version = "1", features = ["http1", "server"] }
hyper-util = { version = "0.1", features = ["tokio"] }
once_cell = "1"
rand = "0.8"
rkyv = { version = "0.7.44", features = ["validation"] }
serde = { version = "1", features = ["derive"] }
tokio = { version = "1", features = ["full"] }
tokio-tungstenite = "0.21"
tracing = "0.1"
tracing-appender = "0.2"
tracing-subscriber = "0.3"
uuid7 = { version = "1", features = ["serde"] }
