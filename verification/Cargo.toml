[package]
name = "image_presenter"
version = "0.1.0"
edition = "2021"
publish = false

[dependencies]
gfx-hal = "0.2"
gfx-backend-vulkan = "0.2"
winit = "0.19"
image = { version = "=0.20.1", default-features = false, features = ["png_codec"] }
glsl-to-spirv = "=0.1.7"
