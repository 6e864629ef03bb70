[package]
name = "idle_monitor"
version = "0.1.0"
edition = "2021"
publish = false

[dependencies]
device_query = "*"
