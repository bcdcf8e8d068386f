[package]
name = "kcshot"
version = "0.1.0"
edition = "2021"
publish = false

[dependencies]
xcb = { version = "=1.7.1", features = ["shape"] }
cairo-rs = { version = "=0.22.9", default-features = false, features = ["png", "xcb"] }
chrono = { version = "=0.4.45", default-features = false, features = ["clock"] }
