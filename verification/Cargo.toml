[package]
name = "binder"
version = "0.1.0"
edition = "2021"
publish = false

[dependencies]
gl = "0.14"
glutin = "0.28"
log = "0.4"
nalgebra-glm = "0.18"
rand = "0.8"
