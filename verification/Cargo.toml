[package]
name = "office_tray"
version = "0.1.0"
edition = "2021"
publish = false

[dependencies]
gtk = "0.18"
image = "0.25"
objc2-core-foundation = "0.3"
tray-icon = "*"
winit = "0.30"
