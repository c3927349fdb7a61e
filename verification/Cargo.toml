[package]
name = "bracket_terminal"
version = "0.1.0"
edition = "2021"
publish = false

[dependencies]
bracket-color = "0.8"
bracket-geometry = "0.8"
lazy_static = "1"
