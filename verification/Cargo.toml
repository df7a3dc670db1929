[package]
name = "k210_dvp"
version = "0.1.0"
edition = "2021"
publish = false

[dependencies]
k210-hal = "*"
