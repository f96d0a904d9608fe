[package]
name = "http_client"
version = "0.1.0"
edition = "2021"
publish = false

[dependencies]
isahc = "*"
http-types = "*"
async-std = "*"
futures = "*"

[dev-dependencies]
async-h1 = "*"
portpicker = "*"
