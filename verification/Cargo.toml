[package]
name = "golob_lib"
version = "0.1.0"
edition = "2021"
publish = false

[dependencies]
indexmap = "=2.14.2"
uuid = { version = "=1.27.0", features = ["v4"] }
pyo3 = "=0.29.3"
