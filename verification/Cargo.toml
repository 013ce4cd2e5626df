[package]
name = "vibe_asteroid"
version = "0.1.0"
edition = "2021"
publish = false

[dependencies]
rand = "0.8"
crossterm = "*"
log = "*"
simple-logging = "*"
