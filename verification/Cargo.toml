[package]
name = "kast_playground"
version = "0.1.0"
edition = "2021"
publish = false

[dependencies]
kast = "=0.1.0"
eyre = "=0.6.14"
wasm-bindgen = "0.2"
js-sys = "=0.3.77"
console_error_panic_hook = "=0.1.7"
