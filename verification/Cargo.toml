[package]
name = "calendar_datetime"
version = "0.1.0"
edition = "2021"
publish = false

[dependencies]
chrono = { version = "0.4", default-features = false, features = ["std"] }
pyo3 = { version = "*", features = ["extension-module"] }
