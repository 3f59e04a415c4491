[package]
name = "choo_choo"
version = "0.1.0"
edition = "2021"
publish = false

[dependencies]
fastrand = "2"
macroquad = "0.4"
macroquad-particles = "0.2"
rapier2d = "*"
