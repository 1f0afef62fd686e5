[package]
name = "mouse_keyboard_input"
version = "0.1.0"
edition = "2021"
publish = false

[dependencies]
crossbeam-channel = "0.5"
libc = "0.2"
nix = "0.26"
ioctl-sys = "0.8"
udev = "0.7"
