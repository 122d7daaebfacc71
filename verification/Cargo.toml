[package]
name = "compass"
version = "0.1.0"
edition = "2021"
publish = false

[dependencies]
quanta = "*"
phper = "*"
probe = "*"
cached = "*"
once_cell = "*"
tracing = "*"
