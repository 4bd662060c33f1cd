[package]
name = "colsink"
version = "0.1.0"
edition = "2021"
publish = false

[dependencies]
arrow = "=60.0.0"
parquet = "=60.0.0"
serde = { version = "=1.0.229", features = ["derive"] }
serde_json = "=1.0.151"
uuid = { version = "=1.27.0", features = ["v4", "v7"] }
tokio = { version = "=1.53.2", features = ["rt", "sync", "time", "macros"] }
tokio-util = { version = "=0.7.19", features = ["rt"] }
unicase = "=2.10.0"
like = "=0.3.1"
regex = "=1.13.1"
ipnet = "=2.12.2"
time = "=0.3.55"
ordered-float = "=5.5.0"
anyhow = "=1.0.104"
thiserror = "=2.0.21"
