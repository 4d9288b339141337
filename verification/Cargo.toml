[package]
name = "browser"
version = "0.1.0"
edition = "2021"
publish = false

[dependencies]
anyhow = "1"
egui = { version = "0.31", default-features = false, features = ["default_fonts"] }
egui_commonmark = { version = "0.20", default-features = false, features = ["pulldown_cmark"] }
egui_material_icons = "0.3"
egui-wgpu = { version = "0.31", default-features = false, features = ["winit"] }
egui-winit = { version = "0.31", default-features = false }
pollster = "0.4"
pulldown-cmark = { version = "0.13", default-features = false }
reqwest = { version = "0.12", default-features = false, features = ["blocking"] }
wasmtime = { version = "30", default-features = false, features = ["async", "component-model", "cranelift", "runtime"] }
wasmtime-wasi = { version = "30", default-features = false }
wgpu-core = { version = "24", default-features = false }
wgpu-types = { version = "24", default-features = false }
winit = { version = "0.30", default-features = false, features = ["rwh_06", "x11"] }
