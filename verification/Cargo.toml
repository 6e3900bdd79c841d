[package]
name = "nes_core"
version = "0.1.0"
edition = "2021"
publish = false

[dependencies]
glow = "0.13"
sdl2 = "0.36"
