[package]
name = "naga"
version = "0.1.0"
edition = "2021"
publish = false

[dependencies]
bumpalo = "3"
bindgen = "*"
cached-path = "*"
