[package]
name = "rynth"
version = "0.1.0"
edition = "2021"
publish = false

[dependencies]
pyo3 = { version = "*", features = ["num-rational", "experimental-async"] }
vapoursynth4-rs = "*"
num-rational = "*"
parking_lot = "*"
async-executor = "*"
futures-lite = "*"
libloading = "*"
bon = "*"
