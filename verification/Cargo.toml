[package]
name = "rover_controller_app"
version = "0.1.0"
edition = "2021"
publish = false

[dependencies]
egui = "0.18"
egui_glium = "0.18"
glium = "0.31"
