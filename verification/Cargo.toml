[package]
name = "wlclient"
version = "0.1.0"
edition = "2021"
publish = false

[dependencies]
wayland-client = "=0.23.6"
wayland-protocols = { version = "=0.23.6", features = ["client", "unstable_protocols"] }
tempfile = "=3.27.0"
