[package]
name = "zinnebeeld"
version = "0.1.0"
edition = "2021"
publish = false

[dependencies]
dashmap = "*"
euclid = "*"
glium = "*"
image = { version = "*", default-features = false, features = ["png", "jpeg"] }
softbuffer = "*"
thiserror = "*"
