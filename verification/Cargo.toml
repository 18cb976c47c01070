[package]
name = "expr_functions"
version = "0.1.0"
edition = "2021"
publish = false

[dependencies]
chrono = "=0.4.39"
datafusion = "36.0.0"
datafusion-common = "36.0.0"
datafusion-expr = "36.0.0"
datafusion-functions-array = "36.0.0"
pyo3 = { version = "=0.20.3", features = ["extension-module", "abi3", "abi3-py38"] }
