[package]
name = "c4_display"
version = "0.1.0"
edition = "2021"
publish = false

[dependencies]
rppal = "*"
log = "*"
env_logger = "*"
