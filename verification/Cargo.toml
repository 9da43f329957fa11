[package]
name = "taskbar_interface"
version = "0.1.0"
edition = "2021"
publish = false

[dependencies]
dbus = { version = "0.9", features = ["vendored"] }
raw-window-handle = "*"
