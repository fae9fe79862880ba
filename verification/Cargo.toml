[package]
name = "paga"
version = "0.1.0"
edition = "2021"
publish = false

[dependencies]
env_logger = "=0.10.2"
error-iter = "=0.4.1"
game-loop = { version = "=1.1.0", features = ["winit"] }
line_drawing = "=1.0.1"
log = "=0.4.34"
pollster = "=0.3.0"
winit = "=0.28.7"
winit_input_helper = "=0.14.1"
