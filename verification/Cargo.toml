[package]
name = "zecrovizr"
version = "0.1.0"
edition = "2021"
publish = false

[dependencies]
kvm-ioctls = "*"
kvm-bindings = { version = "*", features = ["fam-wrappers"] }
libc = "*"
