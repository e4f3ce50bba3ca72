[package]
name = "gles_native"
version = "0.1.0"
edition = "2021"
publish = false

[dependencies]
env_logger = "*"
lazy_static = "*"
libc = "*"
log = "*"
parking_lot = "*"
