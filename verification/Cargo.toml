[package]
name = "piston"
version = "0.1.0"
edition = "2021"
publish = false

[dependencies]
anyhow = "1"
ash = "0.37"
cocoa = "0.25"
env_logger = "0.10"
log = "0.4"
metal = "0.27"
num-traits = "0.2"
winit = "0.29"
