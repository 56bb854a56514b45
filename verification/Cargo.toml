[package]
name = "nox_throttle"
version = "0.1.0"
edition = "2021"
publish = false

[dependencies]
cgroups-rs = "*"
tokio = { version = "*", features = ["rt-multi-thread", "sync", "time"] }
futures = "*"
libc = "*"
nix = { version = "*", features = ["process"] }
