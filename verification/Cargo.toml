[package]
name = "tower_defense"
version = "0.1.0"
edition = "2021"
publish = false

[dependencies]
bevy = { version = "=0.9.1", default-features = false, features = ["bevy_asset", "bevy_scene", "bevy_gltf", "bevy_winit", "bevy_render", "bevy_core_pipeline", "bevy_pbr", "bevy_ui", "bevy_text", "png", "x11"] }
bevy_rapier3d = { version = "=0.19.0", default-features = false, features = ["dim3", "debug-render"] }
bevy_mod_picking = { version = "=0.11.0", default-features = false }
bevy-scene-hook = "=5.2.0"
bevy-inspector-egui = { version = "0.14", default-features = false }
