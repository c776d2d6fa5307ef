[package]
name = "raytracer3"
version = "0.1.0"
edition = "2021"
publish = false

[dependencies]
cgmath = "0.18"
rand = "0.8"
rayon = "1"
clap = "2"
image = { version = "0.24", default-features = false, features = ["png"] }
