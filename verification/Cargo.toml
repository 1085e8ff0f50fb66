[package]
name = "climage"
version = "0.1.0"
edition = "2021"
publish = false

[dependencies]
ocl = "*"
image = { version = "*", default-features = false, features = ["png"] }
