[package]
name = "stockton-bsp"
version = "0.1.0"
edition = "2021"

[dependencies]
bit-vec = "0.6"
bitflags = "1.3"
nalgebra = "0.32"
