[package]
name = "zbot_imu"
version = "0.1.0"
edition = "2021"
publish = false

[dependencies]
async-trait = "*"
eyre = "*"
kos_core = "*"
linux_bno055 = "*"
tokio = { version = "1", features = ["sync", "rt", "macros", "time"] }
tracing = "*"
