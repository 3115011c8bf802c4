[package]
name = "spawn_wait"
version = "0.2.2"
edition = "2021"
publish = false

[dependencies]
libc = "0.2"
signal-hook = "0.3"
thiserror = "1"
