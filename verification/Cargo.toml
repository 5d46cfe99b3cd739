[package]
name = "monokit"
version = "0.1.0"
edition = "2021"
publish = false

[dependencies]
rand = "0.8"
anyhow = "1"
chrono = "0.4"
cpal = "0.15"
once_cell = "1"
rosc = "0.10"
