[package]
name = "snake_engine"
version = "0.1.0"
edition = "2021"
publish = false

[dependencies]
image = { version = "=0.25.10", default-features = false, features = ["png"] }
vulkano = "=0.35.2"
winit = "=0.30.13"
hecs = "=0.10.5"
rayon = "=1.12.0"
glam = "=0.34.2"
color = "=0.3.3"
ab_glyph = "=0.2.32"
tracing = "=0.1.44"
tracing-subscriber = "=0.3.23"
tracy-client = { version = "=0.19.0", default-features = false }
rust-embed = "=8.13.0"
strum = { version = "=0.27.2", features = ["derive"] }
anyhow = "=1.0.104"
rapier2d = "=0.36.1"
bytemuck = "=1.25.2"
