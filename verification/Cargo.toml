[package]
name = "navx"
version = "0.1.0"
edition = "2021"
publish = false

[dependencies]
memchr = "*"
parking_lot = "*"

[dev-dependencies]
byteorder = "*"
