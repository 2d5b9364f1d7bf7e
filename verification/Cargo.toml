[package]
name = "rustodrive"
version = "0.1.0"
edition = "2021"
publish = false

[dependencies]
socketcan = "1.7"
signal-hook = "0.3"
