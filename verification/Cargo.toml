[package]
name = "egui_speedy2d"
version = "0.1.0"
edition = "2021"
publish = false

[dependencies]
egui = "0.27"
epaint = "0.27"
speedy2d = "2"
