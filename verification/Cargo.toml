[package]
name = "emulsion"
version = "0.1.0"
edition = "2021"
publish = false

[dependencies]
clap = "4"
image = { version = "0.25", default-features = false, features = ["png", "jpeg"] }
log = "0.4"
winit = { version = "0.29", default-features = false, features = ["x11"] }
