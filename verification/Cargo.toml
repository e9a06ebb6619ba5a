[package]
name = "cairo_pipeline"
version = "0.1.0"
edition = "2021"
publish = false

[dependencies]
cairo-air = "=1.3.0"
cairo-vm = "=3.2.0"
stwo = "=2.3.0"
stwo-cairo-adapter = "=1.3.0"
stwo-cairo-common = "=1.3.0"
wasm-bindgen = "=0.2.129"

[dev-dependencies]
serde_json = "=1.0.154"
