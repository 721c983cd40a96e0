[package]
name = "doc_maker"
version = "0.1.0"
edition = "2021"
publish = false

[dependencies]
base64 = "=0.23.1"
printpdf = { version = "=0.12.8", default-features = false, features = ["png", "jpeg"] }
js-sys = "=0.3.106"
wasm-bindgen = "=0.2.129"
