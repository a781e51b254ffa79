[package]
name = "rfstore"
version = "0.1.0"
edition = "2021"
publish = false

[dependencies]
dashmap = "5"
libc = "0.2"
nix = "0.14"
signal = "0.7"
