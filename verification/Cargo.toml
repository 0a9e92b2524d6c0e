[package]
name = "kitties"
version = "0.1.0"
edition = "2021"
publish = false

[dependencies]
parity-scale-codec = "*"
sp-io = "*"
sp-runtime = "*"
frame-support = "*"
frame-system = "*"
