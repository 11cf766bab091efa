[package]
name = "multiplikation"
version = "0.1.0"
edition = "2021"
publish = false

[dependencies]
core_affinity = "0.8"
crossbeam = "0.8"
rayon = "1"
