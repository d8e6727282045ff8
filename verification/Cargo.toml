[package]
name = "city_skyline"
version = "0.1.0"
edition = "2021"
publish = false

[dependencies]
image = { version = "0.24", default-features = false, features = ["bmp"] }
num = "0.4"
rand = "0.8"
