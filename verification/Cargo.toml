[package]
name = "renderer"
version = "0.1.0"
edition = "2021"

[dependencies]
gfx = "=0.10.2"
