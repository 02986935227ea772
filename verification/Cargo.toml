[package]
name = "purs"
version = "0.1.0"
edition = "2021"
publish = false

[dependencies]
itertools = "*"
clap = "*"
colored = "*"
git2 = "*"
nix = { version = "*", features = ["hostname"] }
