[package]
name = "bevy_ecs_benchmark"
version = "0.1.0"
edition = "2021"
publish = false

[dependencies]
bevy = { version = "=0.17.3", default-features = false, features = ["std", "multi_threaded", "bevy_log", "bevy_window", "bevy_winit", "x11"] }
chrono = "=0.4.45"
rand = "=0.8.8"
rand_xoshiro = "=0.6.0"
serde = { version = "=1.0.229", features = ["derive"] }
serde_json = "=1.0.154"
