[package]
name = "kare"
version = "0.1.0"
edition = "2021"
publish = false

[dependencies]
crossbeam-channel = "*"
device_query = "*"
rdev = "*"
