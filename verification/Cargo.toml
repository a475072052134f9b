[package]
name = "nmsg"
version = "0.1.0"
edition = "2021"
publish = false

[dependencies]
failure = "0.1"
libc = "0.2"
nanomsg-sys = "*"
