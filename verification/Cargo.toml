[package]
name = "shell_bootstrap"
version = "0.1.0"
edition = "2021"
publish = false

[dependencies]
tauri = { version = "2", default-features = false }
tauri-plugin-prevent-default = { version = "*", default-features = false }
