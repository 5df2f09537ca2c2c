[package]
name = "quick_check"
version = "0.1.0"
edition = "2021"
publish = false

[dependencies]
rand = "*"
num = "*"
log = "*"
env_logger = "*"
