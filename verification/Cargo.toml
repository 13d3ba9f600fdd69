[package]
name = "keepawake"
version = "0.1.0"
edition = "2021"
publish = false

[dependencies]
core-foundation = "0.10"
libc = "0.2"
ctrlc = "3"
tao = "0.34"
tray-icon = "0.21"
image = { version = "0.25", default-features = false, features = ["png"] }
