[package]
name = "now_playing"
version = "0.1.0"
edition = "2021"
publish = false

[dependencies]
url = "2"
mpris = "2"
dbus = "0.9"
dirs = "6"
image = "0.25"
