[package]
name = "local_ta"
version = "0.1.0"
edition = "2021"
publish = false

[dependencies]
android_logger = "=0.15.1"
libc = "=0.2.191"
log = "=0.4.34"
