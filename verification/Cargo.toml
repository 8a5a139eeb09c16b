[package]
name = "ellipsoid"
version = "0.1.0"
edition = "2021"
publish = false

[dependencies]
async-trait = "=0.1.92"
bytemuck = "=1.25.2"
cfg-if = "=1.0.5"
chrono = "=0.4.45"
console_error_panic_hook = "0.1"
console_log = "1"
egui = "=0.21.0"
egui_file = "0.8"
egui_wgpu_backend = "=0.22.0"
egui_winit_platform = "=0.18.0"
env_logger = "=0.10.2"
glam = "=0.24.2"
image = "=0.24.9"
log = "=0.4.34"
serde = { version = "=1.0.229", features = ["derive"] }
strum = { version = "=0.24.1", features = ["derive"] }
wasm-bindgen = "0.2"
web-sys = { version = "0.3", features = ["Document", "Element", "Window"] }
wgpu = "=0.15.1"
winit = "=0.28.7"
