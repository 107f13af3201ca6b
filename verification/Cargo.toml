[package]
name = "keyboard_oled"
version = "0.1.0"
edition = "2021"
publish = false

[dependencies]
anyhow = "1"
bitvec = "=0.20.4"
embedded-graphics = "0.6"
hostname = "0.3"
rusb = "0.8"
tracing = "0.1"
tracing-subscriber = { version = "0.2", features = ["env-filter"] }
