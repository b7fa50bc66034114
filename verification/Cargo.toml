[package]
name = "setroot"
version = "0.1.0"
edition = "2021"
publish = false

[dependencies]
xcb = { version = "*", features = ["randr"] }
image = "*"
