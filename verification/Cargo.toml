[package]
name = "web_asset"
version = "0.1.0"
edition = "2021"
publish = false

[dependencies]
surf = "*"
