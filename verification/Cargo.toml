[package]
name = "hsml"
version = "0.1.0"
edition = "2021"
publish = false

[dependencies]
clap = { version = "4", features = ["cargo"] }
wasm-bindgen = "0.2"
