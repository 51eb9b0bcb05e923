[package]
name = "bridge_relay"
version = "0.1.0"
edition = "2021"
publish = false

[dependencies]
sp-core = "=43.0.0"
parity-scale-codec = "=3.7.5"
blake2 = "=0.11.0"
