[package]
name = "fractal_view"
version = "0.1.0"
edition = "2021"
publish = false

[dependencies]
macroquad = "0.4"
rug = "1"
strum = { version = "0.27", features = ["derive"] }
line-clipping = "*"
