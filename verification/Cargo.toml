[package]
name = "core_bridge"
version = "0.1.0"
edition = "2021"
publish = false

[dependencies]
anchor-lang = "=0.28.0"
wormhole-raw-vaas = "=0.3.0"
