[package]
name = "docframe"
version = "0.1.0"
edition = "2021"
publish = false

[dependencies]
ttf-parser = "0.8"
