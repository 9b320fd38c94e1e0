[package]
name = "senza"
version = "0.1.0"
edition = "2021"
publish = false

[dependencies]
serde_json = "1"
pyo3 = "0.29"
tokio = { version = "1", features = ["full"] }
tokio-util = "0.7"
futures = "0.3"
parking_lot = "0.12"
tracing = "0.1"
chrono = "0.4"
