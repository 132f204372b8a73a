[package]
name = "hpm_probe"
version = "0.1.0"
edition = "2021"
publish = false

[dependencies]
usb-device = "=0.2.9"
usbd-serial = "=0.1.1"
