[package]
name = "zx_input"
version = "0.1.0"
edition = "2021"
publish = false

[dependencies]
rustzx-core = "=0.12.0"
sdl2 = "=0.38.0"
