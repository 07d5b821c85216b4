[package]
name = "drone_target"
version = "0.1.0"
edition = "2021"
publish = false

[dependencies]
rapier3d = "*"
nalgebra = "*"
