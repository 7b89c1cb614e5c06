[package]
name = "tpdu"
version = "1.0.1"
edition = "2021"
publish = false

[dependencies]
gsm7 = "*"
hex = "0.4"
pyo3 = "*"
chrono = "0.4"
