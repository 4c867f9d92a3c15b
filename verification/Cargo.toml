[package]
name = "evolution_plants"
version = "0.1.0"
edition = "2021"
publish = false

[dependencies]
thiserror = "1"
winit = "0.28"
