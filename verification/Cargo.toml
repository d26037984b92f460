[package]
name = "async_tun"
version = "0.1.0"
edition = "2021"
publish = false

[dependencies]
async-std = "1"
libc = "0.2"
mac_address = "1"
nix = { version = "0.29", features = ["ioctl", "socket"] }
