[package]
name = "rong"
version = "0.1.0"
edition = "2021"
publish = false

[dependencies]
ggez = "0.6"
nalgebra = { version = "*", features = ["mint"] }
rand = "0.8"
