[package]
name = "fluxite"
version = "0.1.0"
edition = "2021"
publish = false

[dependencies]
crossbeam-channel = "*"
serde = { version = "1", features = ["derive"] }
log = "*"
metrics-core = "*"
metrics-util = "*"
hdrhistogram = "*"
