[package]
name = "nodock"
version = "0.1.0"
edition = "2021"
publish = false

[dependencies]
hcl-rs = "*"
serde = "*"
serde_derive = "*"
toml = "*"
