[package]
name = "panduza_core"
version = "0.1.0"
edition = "2021"
publish = false

[dependencies]
serde_json = "1"
serde = { version = "1", features = ["derive"] }
regex = "1"
tokio = { version = "1", features = ["full"] }
rumqttc = { version = "0.24", default-features = false }
tracing = "0.1"
futures = "0.3"
async-trait = "0.1"
bytes = "1"
chrono = "0.4"
hostname = "0.4"
thiserror = "1"
bitflags = "2"
