[package]
name = "job_tracker"
version = "0.1.0"
edition = "2021"
publish = false

[dependencies]
anyhow = "=1.0.104"
chrono = "=0.4.45"
lazy_static = "=1.5.1"
napi = { version = "=2.16.17", features = ["async", "error_anyhow"] }
napi-derive = "=2.16.13"
pyo3 = "=0.23.5"
reqwest = { version = "=0.12.28", features = ["blocking"] }
tokio = { version = "=1.54.1", features = ["time", "rt", "rt-multi-thread", "macros"] }
uuid = { version = "=1.29.0", features = ["v7"] }
