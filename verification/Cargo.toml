[package]
name = "handmade_hero"
version = "0.1.0"
edition = "2021"
publish = false

[dependencies]
rand = "*"
epoll = "*"
libc = "*"
memmap = "*"
wayland-client = "*"
wayland-protocols = { version = "*", features = ["client"] }
xkbcommon = "*"
libpulse-binding = "*"
