[package]
name = "doom_status"
version = "0.1.0"
edition = "2021"
publish = false

[dependencies]
gtk = "0.18"
muda = "*"
sysinfo = "*"
tray-icon = "*"
winit = "0.30"
