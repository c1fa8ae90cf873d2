[package]
name = "mmap_rs"
version = "0.1.0"
edition = "2021"
publish = false

[dependencies]
nix = "0.23"
libc = "0.2"
