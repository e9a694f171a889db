[package]
name = "middleware_entry"
version = "0.1.0"
edition = "2021"
publish = false

[dependencies]
anyhow = "=1.0.104"
turbo-rcstr = "=0.1.0"
