[package]
name = "dtvmcore_rust"
version = "0.1.0"
edition = "2021"
publish = false

[dependencies]
cty = "0.2"
libc = "0.2"
