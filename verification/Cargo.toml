[package]
name = "setupsmith"
version = "0.1.0"
edition = "2021"
publish = false

[dependencies]
serde_json = "*"
serde_yaml = "*"
duct = "*"
nix = { version = "*", features = ["user"] }
