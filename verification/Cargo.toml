[package]
name = "carla_autoware_bridge"
version = "0.1.0"
edition = "2021"
publish = false

[dependencies]
anyhow = "*"
carla = "*"
carla-ackermann = "*"
flume = "*"
futures = "*"
nalgebra = "*"
ndarray = "*"
noisy_float = "*"
r2r = "*"
tempfile = "*"
tokio = { version = "*", features = ["full"] }
