[package]
name = "signal"
version = "0.1.0"
edition = "2021"
publish = false

[dependencies]
libc = "*"
nix = { version = "*", features = ["signal", "process"] }
