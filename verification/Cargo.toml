[package]
name = "artichoke-backend"
version = "0.1.0"
edition = "2021"
publish = false

[dependencies]
arrayvec = "*"
base64 = "0.13"
hex = "0.4"
rand = "0.7"
uuid = { version = "0.8", features = ["v4"] }
