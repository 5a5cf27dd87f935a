[package]
name = "conway_life"
version = "0.1.0"
edition = "2021"
publish = false

[dependencies]
gif = "=0.12.0"
raylib = "5.5"
