[package]
name = "solarance"
version = "0.1.0"
edition = "2021"
publish = false

[dependencies]
glam = "=0.34.2"
log = "=0.4.35"
macroquad = "=0.4.16"
egui-macroquad = "=0.17.3"
spacetimedb-sdk = "=2.9.0"
spacetimedsl = "*"
