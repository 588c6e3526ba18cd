[package]
name = "oxideav-sysaudio"
version = "0.1.1"
edition = "2021"
publish = false

[dependencies]
libloading = "0.9"
