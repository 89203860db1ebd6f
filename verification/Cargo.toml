[package]
name = "caffeinate2"
version = "0.1.0"
edition = "2021"
publish = false

[dependencies]
chrono = "*"
clap = { version = "*", features = ["derive"] }
core-foundation = "*"
humantime = "*"
libloading = "*"
nix = { version = "*", features = ["event", "fs", "process", "signal", "user"] }
regex = "*"
signal-hook = "*"
