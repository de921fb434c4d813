[package]
name = "fly_bird"
version = "0.1.0"
edition = "2021"
publish = false

[dependencies]
bracket-lib = "*"
