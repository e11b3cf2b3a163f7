[package]
name = "voltron_shell"
version = "0.1.0"
edition = "2021"
publish = false

[dependencies]
tauri-plugin-deep-link = "=0.1.2"
