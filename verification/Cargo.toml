[package]
name = "egui_sdl2_gl"
version = "0.1.0"
edition = "2021"
publish = false

[dependencies]
egui = "0.26"
sdl2 = "0.35"
gl = "0.14"
