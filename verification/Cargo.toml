[package]
name = "roshambo"
version = "0.1.0"
edition = "2021"
publish = false

[dependencies]
multihash = "=0.11.4"
rand = "=0.8.8"
