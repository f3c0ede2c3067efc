[package]
name = "memfd"
version = "0.1.0"
edition = "2021"
publish = false

[dependencies]
nix = { version = "*", default-features = false, features = ["fs"] }
