[package]
name = "rustbridge"
version = "0.1.0"
edition = "2021"
publish = false

[dependencies]
anyhow = "1"
axum = { version = "0.7", features = ["ws"] }
chrono = { version = "0.4", default-features = false, features = ["std", "clock"] }
futures-util = "0.3"
metrics = "0.23"
metrics-exporter-prometheus = { version = "0.15", default-features = false }
rumqttc = { version = "0.24", default-features = false }
serde = { version = "1", features = ["derive"] }
serde_json = "1"
serde_yaml = "0.9"
thiserror = "1"
tokio = { version = "1", features = ["macros", "net", "rt-multi-thread", "sync", "time"] }
tokio-modbus = { version = "*", default-features = false, features = ["tcp"] }
tracing = "0.1"
tracing-subscriber = "0.3"
