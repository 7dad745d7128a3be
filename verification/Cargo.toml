[package]
name = "fontwriter"
version = "0.1.0"
edition = "2021"
publish = false

[dependencies]
fonttools = "=0.1.0"
otspec = "=0.1.0"
wasm-bindgen = "=0.2.129"
