[package]
name = "alacritty_display"
version = "0.1.0"
edition = "2021"
publish = false

[dependencies]
glutin = "=0.22.0-alpha5"
log = "=0.4.35"
parking_lot = "=0.9.0"
# Used through glutin alone. Held at this version because glutin's prerelease asks for
# 0.20.0-alpha4 or later and does not compile with the releases that followed.
winit = "=0.20.0-alpha4"
