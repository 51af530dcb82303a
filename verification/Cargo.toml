[package]
name = "lazr"
version = "0.1.0"
edition = "2021"
publish = false

[dependencies]
heapless = "*"
minifb = "*"
pretty_env_logger = "*"
tiny-skia = "*"
