[package]
name = "moco_tty"
version = "0.1.0"
edition = "2021"
publish = false

[dependencies]
nix = "=0.26.4"
libc = "0.2"
facet = "*"
