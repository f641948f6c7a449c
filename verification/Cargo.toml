[package]
name = "proxy_headers"
version = "0.1.0"
edition = "2021"
publish = false

[dependencies]
afire = "3.0.0-alpha.1"
url = "2"
