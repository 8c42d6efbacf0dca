[package]
name = "recbox"
version = "0.1.0"
edition = "2021"
publish = false

[dependencies]
hound = "3.5"
jack = "0.13"
log = "0.4"
env_logger = "0.11"
