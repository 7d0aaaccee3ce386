[package]
name = "backrooms"
version = "0.1.0"
edition = "2021"
publish = false

[dependencies]
auto_impl = "1"
cgmath = "0.18"
image = { version = "0.24", default-features = false, features = ["png"] }
ndarray = "0.15"
rand = { version = "0.8", features = ["small_rng"] }
