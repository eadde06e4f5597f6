[package]
name = "songfetch"
version = "0.1.0"
edition = "2021"
publish = false

[dependencies]
env_logger = "=0.11.11"
headless_chrome = "=0.9.0"
log = "=0.4.34"
