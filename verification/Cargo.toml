[package]
name = "koe"
version = "0.1.0"
edition = "2021"
publish = false

[dependencies]
block2 = "=0.6.2"
libc = "=0.2.191"
objc2-app-kit = "=0.3.2"
serde_json = "=1.0.154"
