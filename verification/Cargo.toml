[package]
name = "telegrax"
version = "1.0.0"
edition = "2021"
publish = false

[dependencies]
ureq = "2"
