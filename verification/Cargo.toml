[package]
name = "ibx_compat"
version = "0.1.0"
edition = "2021"
publish = false

[dependencies]
pyo3 = "*"
log = "*"
zeroize = "*"
