[package]
name = "kand"
version = "0.1.0"
edition = "2021"
publish = false

[dependencies]
num-traits = "=0.2.19"
thiserror = "=2.0.21"
pyo3 = "0.23"
numpy = "0.23"
