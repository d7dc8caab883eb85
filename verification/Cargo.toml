[package]
name = "mdxjs_py"
version = "0.1.0"
edition = "2021"
publish = false

[dependencies]
mdxjs = "=1.0.4"
pyo3 = "=0.30.1"
serde = "=1.0.219"
