[package]
name = "libarchive"
version = "0.1.1"
edition = "2021"
publish = false

[dependencies]
libarchive3-sys = "0.1"
libc = "0.2"
