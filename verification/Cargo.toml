[package]
name = "biscuit_python"
version = "0.1.0"
edition = "2021"
publish = false

[dependencies]
biscuit-auth = "6"
chrono = "0.4"
hex = "0.4"
pyo3 = { version = "*", features = ["chrono"] }
