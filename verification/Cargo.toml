[package]
name = "remote_keyboard"
version = "0.1.0"
edition = "2021"
publish = false

[dependencies]
clap = { version = "4", features = ["derive"] }
enigo = "0.1"
winit = "0.28"
