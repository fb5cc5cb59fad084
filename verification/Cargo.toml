[package]
name = "libgit2"
version = "0.1.0"
edition = "2021"
publish = false

[dependencies]
libgit2-sys = { version = "=0.18.8", features = ["unstable-sha256"] }
ffibox = "=0.1.0"
