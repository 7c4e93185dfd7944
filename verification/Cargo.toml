[package]
name = "spectrusty"
version = "0.1.0"
edition = "2021"
publish = false

[dependencies]
memchr = "=2.8.3"
rand = { version = "0.7", features = ["small_rng"] }
z80emu = "*"
