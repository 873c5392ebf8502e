[package]
name = "shape_gallery"
version = "0.1.0"
edition = "2021"
publish = false

[dependencies]
bevy = { version = "0.10", default-features = false, features = ["bevy_winit", "x11"] }
bevy_vector_shapes = "0.4"
