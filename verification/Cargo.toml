[package]
name = "serveto"
version = "0.1.0"
edition = "2021"

[dependencies]
nix = "0.17"
