[package]
name = "d15_solver"
version = "0.1.0"
edition = "2021"
publish = false

[dependencies]
hash_hasher = "*"
wasm-bindgen = "*"
