[package]
name = "cast2gif"
version = "0.1.0"
edition = "2021"
publish = false

[dependencies]
better-panic = "*"
clap = "*"
env_logger = "*"
indicatif = "*"
log = "*"
