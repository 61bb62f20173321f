[package]
name = "pasteboard"
version = "0.1.0"
edition = "2021"
publish = false

[dependencies]
libc = "0.2"
objc = "0.2"
objc-foundation = "0.1"
objc_id = "0.1"
