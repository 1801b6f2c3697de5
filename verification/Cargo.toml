[package]
name = "purple"
version = "0.1.0"
edition = "2021"
publish = false

[dependencies]
vello = "0.6"
parley = "0.6"
winit = { version = "0.30", default-features = false, features = ["x11", "rwh_06"] }
async-std = "1"
futures = "0.3"
image = { version = "0.25", default-features = false, features = ["png"] }
