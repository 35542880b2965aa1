[package]
name = "rstrial"
version = "0.1.0"
edition = "2021"
publish = false

[dependencies]
clap = { version = "*", features = ["derive"] }
common-path = "*"
log = "*"
pretty_env_logger = "*"
progress = "*"
walkdir = "*"
