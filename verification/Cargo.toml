[package]
name = "metal-live-resize"
version = "0.1.0"
edition = "2021"
publish = false

[dependencies]
objc2 = "0.6"
