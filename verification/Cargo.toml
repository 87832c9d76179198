[package]
name = "sigma_dock"
version = "0.1.0"
edition = "2021"
publish = false

[dependencies]
libusb = "=0.1.1"
time = "=0.1.45"
