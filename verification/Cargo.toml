[package]
name = "async_fuse"
version = "0.1.0"
edition = "2021"
publish = false

[dependencies]
memchr = "=2.8.3"
libc = "=0.2.190"
crossbeam-queue = "*"
