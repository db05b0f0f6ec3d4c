[package]
name = "mung"
version = "0.1.0"
edition = "2021"
publish = false

[dependencies]
encoding = "*"
rustc-serialize = "*"
