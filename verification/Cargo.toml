[package]
name = "chip8_emulator"
version = "0.1.0"
edition = "2021"

[dependencies]
minifb = "0.28"
rand = "0.9"
rodio = { version = "0.20", default-features = false }
wasm-bindgen = "0.2"
