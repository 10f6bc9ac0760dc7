[package]
name = "pq_facade"
version = "0.1.0"
edition = "2021"
publish = false

[dependencies]
pqcrypto-kyber = "*"
pqcrypto-falcon = "*"
pqcrypto-traits = "*"
pyo3 = "0.20"
