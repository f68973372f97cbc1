[package]
name = "frameflight"
version = "0.1.0"
edition = "2021"
publish = false

[dependencies]
anyhow = "*"
ash = "*"
env_logger = "*"
glfw = "*"
log = "*"
shaderc = "*"
