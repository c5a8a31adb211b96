[package]
name = "secret-loader"
version = "0.0.1"
edition = "2021"
publish = false

[dependencies]
camino = "1"
secrecy = "0.8"
serde = "1"

[dev-dependencies]
tempfile = "3"
