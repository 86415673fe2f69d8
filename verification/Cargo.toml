[package]
name = "rsimg"
version = "0.1.0"
edition = "2021"
publish = false

[dependencies]
anyhow = "*"
clap = { version = "*", features = ["derive"] }
image = "*"
indicatif = "*"
owo-colors = "*"
rayon = "*"
walkdir = "*"
webp = "*"
