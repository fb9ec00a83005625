[package]
name = "game_overlay"
version = "0.1.0"
edition = "2021"
publish = false

[dependencies]
glam = "*"
