[package]
name = "textwidth"
version = "0.1.0"
edition = "2021"
publish = false

[dependencies]
x11 = { version = "*", features = ["xlib"] }
thiserror = "*"
static_assertions = "*"
