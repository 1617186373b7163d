[package]
name = "egui_fbink"
version = "0.1.0"
edition = "2021"
publish = false

[dependencies]
embedded-graphics = "=0.8.2"
egui = "=0.27.2"
env_logger = "0.11"
log = "=0.4.34"
nohash-hasher = "=0.2.0"
raw-window-handle = "=0.6.2"
