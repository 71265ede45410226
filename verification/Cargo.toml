[package]
name = "linklayer"
version = "0.1.0"
edition = "2021"
publish = false

[dependencies]
byteorder = "1"
libc = "0.2"
etherparse = "*"
tun-tap = "*"
