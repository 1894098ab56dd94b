[package]
name = "vaporwave_overlay"
version = "0.1.0"
edition = "2021"
publish = false

[dependencies]
cocoa = "=0.26.1"
objc = "=0.2.7"
pollster = "=0.3.0"
wgpu = "=24.0.5"
winit = "=0.30.13"

[dev-dependencies]
bytemuck = "=1.25.2"
