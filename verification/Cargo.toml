[package]
name = "trt-core"
version = "0.1.0"
edition = "2021"
publish = false

[dependencies]
rand = "0.8"
rayon = "1"
image = { version = "0.24", default-features = false, features = ["jpeg", "png"] }
indicatif = { version = "0.17", features = ["rayon"] }
