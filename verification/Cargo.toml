[package]
name = "at2xt"
version = "0.1.0"
edition = "2021"
publish = false

[dependencies]
bit_reverse = "*"
