[package]
name = "crab_nbt"
version = "0.1.0"
edition = "2021"
publish = false

[dependencies]
bytes = "1"
simd_cesu8 = "*"
