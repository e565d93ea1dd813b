[package]
name = "web_servo"
version = "0.1.0"
edition = "2021"
publish = false

[dependencies]
url = "2"
keyboard-types = "0.8"
dpi = "0.1"
euclid = "0.22"
godot = "0.5"
