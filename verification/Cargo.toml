[package]
name = "clang"
version = "0.1.0"
edition = "2021"
publish = false

[dependencies]
clang-sys = { version = "1", features = ["clang_10_0", "runtime"] }
libc = "0.2"
