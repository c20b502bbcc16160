[package]
name = "camgi"
version = "0.1.0"
edition = "2021"
publish = false

[dependencies]
html-builder = "=0.5.1"

[dev-dependencies]
html-escape = "=0.2.15"
