[package]
name = "aruna_web"
version = "0.1.0"
edition = "2021"
publish = false

[dependencies]
anyhow = "=1.0.104"
aruna-rust-api = "=2.0.2"
tonic = "=0.11.0"
