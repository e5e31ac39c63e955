[package]
name = "sacn_receiver"
version = "0.1.0"
edition = "2021"
publish = false

[dependencies]
libc = "=0.2.191"
socket2 = { version = "=0.3.19", features = ["reuseport"] }
