[package]
name = "handy"
version = "0.1.0"
edition = "2021"
publish = false

[dependencies]
crossbeam-channel = "*"
log = "*"
handy-keys = "*"
transcribe-rs = "*"
