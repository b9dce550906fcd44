[package]
name = "kbd_gamepad"
version = "0.1.0"
edition = "2021"
publish = false

[dependencies]
anyhow = "1"
clap = { version = "4", features = ["derive"] }
env_logger = "*"
evdev = "0.12"
log = "0.4"
