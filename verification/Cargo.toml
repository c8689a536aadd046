[package]
name = "ascii_webcam"
version = "0.1.0"
edition = "2021"
publish = false

[dependencies]
ringbuf = "*"
parking_lot = "*"
log = "*"
env_logger = "*"
color-eyre = "*"
crossterm = "*"
ratatui = "*"
opus = "*"
cpal = "*"
opencv = "*"
