[package]
name = "marquee"
version = "0.1.0"
edition = "2021"

[dependencies]
bevy = { version = "=0.1.3", default-features = false, features = ["bevy_wgpu", "bevy_winit", "png"] }
notify = "=5.0.0-pre.2"
