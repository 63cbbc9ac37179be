[package]
name = "jolt_virtual"
version = "0.1.0"
edition = "2021"
publish = false

[dev-dependencies]
ark-std = "0.4.0"
rand_chacha = "0.3.1"
