[package]
name = "redpitaya_mercury"
version = "0.1.0"
edition = "2021"
publish = false

[dependencies]
uio = "*"
volatile-register = "*"
