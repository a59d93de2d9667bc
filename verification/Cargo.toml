[package]
name = "blunux-installer"
version = "1.0.0"
edition = "2021"
publish = false

[dependencies]
libc = "0.2"
nix = { version = "*", features = ["term"] }
serde = { version = "1", features = ["derive"] }
toml = "*"
