[package]
name = "hotlib"
version = "0.1.0"
edition = "2021"
publish = false

[dependencies]
crossbeam-channel = "*"
humantime = "*"
libloading = "*"
notify = "*"
serde_json = "*"
slug = "*"
