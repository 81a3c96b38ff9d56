[package]
name = "voice_chat"
version = "0.1.0"
edition = "2021"
publish = false

[dependencies]
chrono = "0.4"
cpal = "0.15"
global-hotkey = "*"
opus = "0.3"
