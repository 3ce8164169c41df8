[package]
name = "scoped-futures"
version = "0.1.0"
edition = "2021"
publish = false

[dependencies]
pin-utils = { version = "0.1", default-features = false }
