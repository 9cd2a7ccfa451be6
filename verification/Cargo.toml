[package]
name = "loaner"
version = "0.1.0"
edition = "2021"
publish = false

[dependencies]
comfy-table = "*"
dialoguer = "*"
miette = { version = "*", features = ["fancy"] }
term_size = "*"
thiserror = "*"
