[package]
name = "libanim"
version = "0.1.0"
edition = "2021"
publish = false

[dependencies]
anyhow = "=1.0.104"
cairo-rs = "=0.9.1"
indicatif = "0.17"
