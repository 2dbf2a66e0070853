[package]
name = "turso-compio"
version = "0.1.0"
edition = "2021"
publish = false

[dependencies]
anyhow = "=1.0.104"
compio = { version = "=0.19.2", default-features = false, features = ["fs"] }
io-uring = "=0.7.15"
libc = "=0.2.191"
log = "=0.4.35"
synchrony = { version = "=0.1.9", features = ["event", "mutex"] }
turso = { version = "=0.7.2", default-features = false }
