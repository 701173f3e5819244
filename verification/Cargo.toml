[package]
name = "katex"
version = "0.1.0"
edition = "2021"
publish = false

[dependencies]
quick-js = { version = "*", default-features = false }
