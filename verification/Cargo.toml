[package]
name = "access_control"
version = "0.1.0"
edition = "2021"
publish = false

[dependencies]
hyper = "=0.14.32"
jsonrpsee-utils = { version = "=0.6.1", features = ["http-helpers"] }
