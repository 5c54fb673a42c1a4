[package]
name = "gestures"
version = "0.1.0"
edition = "2021"
publish = false

[dependencies]
chrono = "*"
input = "*"
miette = "*"
nix = "=0.26.4"
timer = "*"
