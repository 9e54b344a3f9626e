[package]
name = "cloudpub_config"
version = "0.1.0"
edition = "2021"
publish = false

[dependencies]
url = "2"
uuid = { version = "1", features = ["v4"] }
rand = "0.8"
dirs = "*"
