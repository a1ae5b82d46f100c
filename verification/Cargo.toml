[package]
name = "aucont"
version = "0.1.0"
edition = "2021"
publish = false

[dependencies]
nix = "=0.26.4"
libc = "=0.2.190"
clap = "=4.6.7"
scopeguard = "=1.2.0"
serde = { version = "=1.0.229", features = ["derive"] }
serde_json = "=1.0.151"
