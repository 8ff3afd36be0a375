[package]
name = "wm_core"
version = "0.1.0"
edition = "2021"
publish = false

[dependencies]
x11rb = "*"
cairo-rs = { version = "*", features = ["xcb"] }
log = "*"
fern = "*"
chrono = "*"
