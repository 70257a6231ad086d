[package]
name = "korangar"
version = "0.1.0"
edition = "2021"
publish = false

[dependencies]
cgmath = "0.18"
chrono = "0.4"
rayon = "1"
vulkano = "0.28"
vulkano-win = "0.28"
winit = "0.26"
