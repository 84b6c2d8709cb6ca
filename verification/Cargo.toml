[package]
name = "hala_imgui"
version = "0.1.0"
edition = "2021"
publish = false

[dependencies]
anyhow = "1"
imgui = "0.12"
log = "0.4"
log4rs = "1"
winit = "0.30"
