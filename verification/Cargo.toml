[package]
name = "bevy_picking_rapier"
version = "0.1.0"
edition = "2021"
publish = false

[dependencies]
bevy_app = "=0.12.1"
bevy_ecs = "=0.12.1"
bevy_math = "=0.12.1"
bevy_reflect = "=0.12.1"
bevy_transform = "=0.12.1"
bevy_window = "=0.12.1"
bevy_rapier3d = { version = "=0.24.0", default-features = false, features = ["dim3", "headless"] }
