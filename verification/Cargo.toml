[package]
name = "ascii_game"
version = "0.1.0"
edition = "2021"
publish = false

[dependencies]
rand = { version = "0.8", features = ["small_rng"] }
num-integer = "0.1"
pancurses = "0.16"
