[package]
name = "raudit"
version = "0.1.0"
edition = "2021"
publish = false

[dependencies]
nix = { version = "0.27", features = ["fs", "process", "user"] }
clap = "*"
termcolor = "*"
stderrlog = "*"
log = "*"
color-backtrace = "*"
