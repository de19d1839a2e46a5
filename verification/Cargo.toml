[package]
name = "diesel"
version = "0.1.0"
edition = "2021"
publish = false

[dependencies]
libsqlite3-sys = { version = "=0.39.1", features = ["bundled"] }
libc = "=0.2.191"

[dev-dependencies]
error-chain = "0.5"
