[package]
name = "nai_installer"
version = "0.1.0"
edition = "2021"
publish = false

[dependencies]
serde_json = "1"
mime_guess = "2"
tao = "*"
wry = "*"
