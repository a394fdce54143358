[package]
name = "ele"
version = "0.1.0"
edition = "2021"
publish = false

[dependencies]
argh = "*"
env_logger = "*"
log = "*"
nix = { version = "*", features = ["fs", "process", "signal", "term"] }
pty-process = { version = "*", features = ["async"] }
tokio = { version = "*", features = ["io-std", "io-util", "macros", "process", "rt", "signal", "sync", "time"] }
zbus = "*"
zbus_polkit = "*"
