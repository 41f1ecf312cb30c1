[package]
name = "dropit"
version = "0.1.0"
edition = "2021"
publish = false

[dependencies]
frame-support = "=49.0.1"
sp-inherents = "=44.0.0"
parity-scale-codec = { version = "=3.7.5", features = ["derive"] }
thiserror = "=2.0.21"
async-trait = "=0.1.92"
