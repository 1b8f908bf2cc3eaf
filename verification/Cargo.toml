[package]
name = "rustyzip"
version = "0.1.0"
edition = "2021"
publish = false

[dependencies]
zip = { version = "2", default-features = false, features = ["deflate"] }
pyo3 = "*"
pyo3-file = "*"
