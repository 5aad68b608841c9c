[package]
name = "raypy"
version = "0.1.0"
edition = "2021"
publish = false

[dependencies]
rayon = "*"
pyo3 = "0.20"
