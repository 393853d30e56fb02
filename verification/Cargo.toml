[package]
name = "world"
version = "0.1.0"
edition = "2021"
publish = false

[dependencies]
screeps-game-api = "0.21"
log = "0.4"
js-sys = "0.3"
wasm-bindgen = "0.2"
