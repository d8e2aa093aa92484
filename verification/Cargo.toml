[package]
name = "media_sender"
version = "0.1.0"
edition = "2021"
publish = false

[dependencies]
base64 = "0.13"
md-5 = "*"
ring = "*"
stun = "*"
log = "*"
