[package]
name = "xrc20"
version = "0.1.0"
edition = "2021"
publish = false

[dependencies]
ink_prelude = "3.4"
parity-scale-codec = { version = "3", features = ["derive"] }
