[package]
name = "rtd_driver"
version = "0.1.0"
edition = "2021"
publish = false

[dependencies]
anyhow = "*"
linux-embedded-hal = "0.3"
max31865 = "*"
tracing = "*"
tracing-subscriber = "*"
