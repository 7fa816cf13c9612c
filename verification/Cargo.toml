[package]
name = "paras-inherent-benchmarking"
version = "0.1.0"
edition = "2021"
publish = false

[dependencies]
bitvec = "0.20"
sp-core = "35"
sp-runtime = "40"
frame-system = "39"
frame-benchmarking = "39"
