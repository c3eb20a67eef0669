[package]
name = "gbz80"
version = "0.1.0"
edition = "2021"
publish = false

[dependencies]
byteorder = "*"
num_enum = "*"
