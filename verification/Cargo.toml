[package]
name = "anomaly"
version = "0.1.0"
edition = "2021"
publish = false

[dependencies]
stlrs = "=0.4.0"
