[package]
name = "screen_grabber"
version = "0.1.0"
edition = "2021"
publish = false

[dependencies]
image = { version = "=0.24.9", default-features = false, features = ["png", "jpeg", "gif", "bmp"] }
jpeg-decoder = { version = "=0.3.2", default-features = false, features = ["platform_independent"] }
crossbeam = "=0.8.5"
chrono = { version = "=0.4.45", default-features = false, features = ["clock"] }
dirs = "=7.0.0"
