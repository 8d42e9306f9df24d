[package]
name = "vector_shooter"
version = "0.1.0"
edition = "2021"
publish = false

[dependencies]
rand = "0.8"
glam = "0.29"
miniquad = "0.4"
rodio = { version = "0.19", default-features = false }
lazy_static = "1"
