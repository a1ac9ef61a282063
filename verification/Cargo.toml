[package]
name = "dft"
version = "0.1.0"
edition = "2021"
publish = false

[dependencies]
failure = "*"
num-complex = "*"
plotlib = "*"
rodio = { version = "*", default-features = false }
