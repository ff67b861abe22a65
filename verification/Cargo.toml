[package]
name = "wayland-ptt"
version = "0.1.0"
edition = "2021"
publish = false

[dependencies]
evdev = "0.13"
x11rb = { version = "0.13", features = ["xtest"] }
