[package]
name = "dirty"
version = "0.1.0"
edition = "2021"
publish = false

[dependencies]
glutin = "0.21"
glow = "0.4"
gilrs = "0.7"
