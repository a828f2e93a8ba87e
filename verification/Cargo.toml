[package]
name = "vkot_client"
version = "0.1.0"
edition = "2021"
publish = false

[dependencies]
libc = "0.2"
nix = "0.26"
unicode-width = "0.1"
vte = "0.13"
