[package]
name = "window_menu"
version = "0.1.0"
edition = "2021"
publish = false

[dependencies]
log = "*"
objc2 = "*"
objc2-foundation = "*"
tauri = { version = "*", default-features = false }
