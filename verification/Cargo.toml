[package]
name = "pixel_canvas"
version = "0.1.0"
edition = "2021"
publish = false

[dependencies]
im = "=15.1.0"
wasm-bindgen = "=0.2.92"
