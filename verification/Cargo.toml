[package]
name = "wit_flatten"
version = "0.1.0"
edition = "2021"
publish = false

[dependencies]
anyhow = "=1.0.104"
id-arena = "=2.3.0"
wasm-wave = "=0.261.0"
wit-encoder = "=0.261.0"
wit-parser = "=0.261.0"
