[package]
name = "rastreador"
version = "0.1.0"
edition = "2021"
publish = false

[dependencies]
anyhow = "*"
clap = { version = "*", features = ["derive"] }
libc = "*"
nix = { version = "*", features = ["process", "ptrace", "signal", "uio"] }
termios = "*"
