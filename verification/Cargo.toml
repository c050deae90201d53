[package]
name = "random_color"
version = "1.0.0"
edition = "2021"
publish = false

[dependencies]
rand = { version = "0.8", features = ["small_rng"] }
ecolor = "*"
palette = "0.7"
rgb = "0.8"
