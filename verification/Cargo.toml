[package]
name = "img_optim"
version = "0.1.0"
edition = "2021"
publish = false

[dependencies]
image = "*"
webp = "*"
gif = "*"
webp-animation = "*"
