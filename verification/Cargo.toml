[package]
name = "highrock_engine"
version = "0.1.0"
edition = "2021"
publish = false

[dependencies]
wgpu = "=27.0.1"
winit = "=0.30.13"
egui = "=0.33.3"
egui-wgpu = "=0.33.3"
egui-winit = { version = "=0.33.3", default-features = false, features = ["links"] }
glam = { version = "=0.30.10", features = ["bytemuck"] }
bytemuck = { version = "=1.25.2", features = ["derive"] }
image = { version = "=0.25.10", default-features = false, features = ["png"] }
env_logger = "=0.11.11"
log = "=0.4.35"
pollster = "=0.4.0"
instant = "=0.1.13"
wasm-bindgen = "=0.2.130"
wasm-bindgen-futures = "=0.4.80"
web-sys = { version = "=0.3.107", features = ["Window", "Document", "Element", "HtmlCanvasElement"] }
console_log = "1"
console_error_panic_hook = "0.1"
