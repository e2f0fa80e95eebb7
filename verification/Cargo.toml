[package]
name = "wasm_bindgen_rayon"
version = "0.1.0"
edition = "2021"
publish = false

[dependencies]
crossbeam-channel = "0.5"
rayon = "1"
wasm-bindgen = "0.2"
js-sys = "0.3"
