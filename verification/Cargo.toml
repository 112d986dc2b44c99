[package]
name = "three_dimensional_model_simulation"
version = "0.1.0"
edition = "2021"
publish = false

[dependencies]
cgmath = "0.18"
glium = "0.32"
obj-rs = "0.7"
