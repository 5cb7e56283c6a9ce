[package]
name = "nav_controller"
version = "0.1.0"
edition = "2021"
publish = false

[dependencies]
hs-hackathon = "*"
eyre = "*"
tracing = "*"
