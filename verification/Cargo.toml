[package]
name = "regbridge"
version = "0.1.0"
edition = "2021"
publish = false

[dependencies]
anyhow = "1"
neon = "1"
registry = "*"
utfx = "*"
