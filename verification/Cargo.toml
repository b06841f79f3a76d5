[package]
name = "nzea_cosim"
version = "0.1.0"
edition = "2021"
publish = false

[dependencies]
comfy-table = "*"
dlopen2 = "*"
