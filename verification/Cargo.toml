[package]
name = "lazy_socket"
version = "0.3.0"
edition = "2021"

[dependencies]
libc = "0.2"
winapi = "0.2"
kernel32-sys = "0.2"
ws2_32-sys = "0.2"
