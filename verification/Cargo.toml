[package]
name = "clear_screen"
version = "0.1.0"
edition = "2021"
publish = false

[dependencies]
wgpu = { version = "=0.19.4", default-features = false }
winit = { version = "=0.30.13", default-features = false, features = ["x11"] }
game-loop = { version = "=1.3.0", features = ["winit"] }
log = "0.4"
console_log = "1"
console_error_panic_hook = "0.1"
wasm-bindgen = "0.2"
