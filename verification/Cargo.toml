[package]
name = "waffle"
version = "0.1.0"
edition = "2021"
publish = false

[dependencies]
eframe = { version = "=0.31.1", default-features = false, features = ["default_fonts", "glow", "persistence", "x11"] }
egui = "=0.31.1"
egui_extras = { version = "=0.31.1", features = ["http", "image"] }
ehttp = { version = "=0.5.0", features = ["json"] }
idb = "=0.6.5"
js-sys = "=0.3.106"
log = "=0.4.34"
serde = { version = "=1.0.229", features = ["derive"] }
serde_json = "=1.0.154"
serde-wasm-bindgen = "=0.6.5"
wasm-bindgen = "=0.2.129"
wasm-bindgen-futures = "=0.4.79"
web-sys = "=0.3.106"
