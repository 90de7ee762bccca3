[package]
name = "pageshot"
version = "0.1.0"
edition = "2021"
publish = false

[dependencies]
anyhow = "=1.0.104"
headless_chrome = "=0.9.0"
