[package]
name = "devbar"
version = "0.1.0"
edition = "2021"
publish = false

[dependencies]
libc = "0.2"
tracing = "0.1"

[dev-dependencies]
tempfile = "3"
