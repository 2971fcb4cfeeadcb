[package]
name = "spiderweb"
version = "0.1.0"
edition = "2021"
publish = false

[dependencies]
futures = "0.3"
wasm-bindgen = "0.2"
js-sys = "0.3"
slab = "0.4"
pin-project = "1"
syn = { version = "1", features = ["full"] }
quote = "1"
proc-macro2 = "1"
derive-syn-parse = "0.1"
