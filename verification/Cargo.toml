[package]
name = "command_line_cookbook_lib"
version = "0.1.0"
edition = "2021"
publish = false

[dependencies]
portable-pty = "=0.8.1"
users = "=0.11.0"
tauri = { version = "2", default-features = false }
