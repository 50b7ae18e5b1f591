[package]
name = "devenv-sandbox"
version = "0.1.0"
edition = "2021"
publish = false

[dependencies]
landlock = "0.4"
