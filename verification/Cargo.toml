[package]
name = "uid_encoder"
version = "0.1.0"
edition = "2021"
publish = false

[dependencies]
gxhash = "=2.3.1"
uuid = { version = "=1.29.0", features = ["v4"] }
