[package]
name = "rvmon"
version = "0.1.0"
edition = "2021"
publish = false

[dependencies]
bit_field = "0.10"
log = "0.4"
spin = "0.9"
