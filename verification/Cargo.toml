[package]
name = "sandbox_dispatch"
version = "0.1.0"
edition = "2021"
publish = false

[dependencies]
lru-cache = "0.1"
wait-timeout = "0.2"
log = "0.4"
libc = "0.2"
