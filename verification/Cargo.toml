[package]
name = "screencast_core"
version = "0.1.0"
edition = "2021"
publish = false

[dependencies]
dbus = "0.9"
nix = "*"
pipewire = "0.7"
softbuffer = "0.4"
winit = "0.29"
