[package]
name = "ellipse_billard"
version = "0.1.0"
edition = "2021"
publish = false

[dependencies]
console_error_panic_hook = "0.1"
iced = { version = "=0.9.0", default-features = false, features = ["canvas", "glow"] }
iced_graphics = { version = "=0.8.0", features = ["canvas"] }
