[package]
name = "raytracer"
version = "0.1.0"
edition = "2021"
publish = false

[dependencies]
indicatif = "0.17"
rand = "0.8"
rayon = "1"
