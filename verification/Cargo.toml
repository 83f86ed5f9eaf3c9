[package]
name = "korman_screeps_bot"
version = "0.1.0"
edition = "2021"
publish = false

[dependencies]
screeps-game-api = "0.23"
wasm-bindgen = "0.2"
js-sys = "0.3"
log = "0.4"
rand = "0.8"
hecs = "0.10"
