[package]
name = "midi"
version = "0.1.0"
edition = "2021"
publish = false

[dependencies]
heapless = "0.8"
nb = "1"
usb-device = "0.2"
