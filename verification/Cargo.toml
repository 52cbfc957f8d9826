[package]
name = "owned"
version = "0.1.0"
edition = "2021"

[dev-dependencies]
dropcheck = "*"
