[package]
name = "snake_engine"
version = "0.1.0"
edition = "2021"
publish = false

[dependencies]
fixed-slice-vec = "*"
pc-keyboard = "*"
rand = { version = "*", features = ["small_rng"] }
