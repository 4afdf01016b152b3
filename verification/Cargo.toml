[package]
name = "diffai_python"
version = "0.4.0"
edition = "2021"
publish = false

[dependencies]
diffai-core = "*"
pyo3 = "*"
regex = "*"
serde_json = "*"
