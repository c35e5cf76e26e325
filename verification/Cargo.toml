[package]
name = "komsi2tacho"
version = "0.1.0"
edition = "2021"
publish = false

[dependencies]
j1939 = "*"
