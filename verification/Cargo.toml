[package]
name = "asteroids"
version = "0.1.0"
edition = "2021"
publish = false

[dependencies]
rand = "*"
yew = { version = "*", features = ["csr"] }
gloo = "*"
web-sys = { version = "*", features = ["KeyboardEvent", "Window", "Event"] }
itertools = "*"
