[package]
name = "ctrlc"
version = "0.1.0"
edition = "2021"
publish = false

[dependencies]
rustix = { version = "=0.38.44", features = ["fs", "pipe"] }
nix = { version = "=0.31.3", default-features = false, features = ["signal"] }
