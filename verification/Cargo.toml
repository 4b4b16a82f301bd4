[package]
name = "woolog"
version = "0.1.0"
edition = "2021"
publish = false

[dependencies]
atty = "0.2"
once_cell = "1"
pyo3 = "0.20"
tracing = "0.1"
tracing-subscriber = { version = "0.3", features = ["env-filter"] }
