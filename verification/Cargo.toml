[package]
name = "fractal_explorer"
version = "0.1.0"
edition = "2021"
publish = false

[dependencies]
astro-float = "*"
image = { version = "*", default-features = false }
itertools = "*"
nonempty = "*"
piston_window = "*"
rayon = "*"
