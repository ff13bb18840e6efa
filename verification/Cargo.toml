[package]
name = "curveball"
version = "0.1.0"
edition = "2021"
publish = false

[dependencies]
chull = "*"
glam = "*"
lerp = "*"
itertools = "*"
thiserror = "*"
clap = { version = "4", features = ["derive"] }
ansi-colors = "*"
