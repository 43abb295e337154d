[package]
name = "mesh_framing"
version = "0.1.0"
edition = "2021"
publish = false

[dependencies]
anyhow = "*"
bytemuck = { version = "*", features = ["derive"] }
cgmath = "*"
futures = "*"
image = "*"
nom_stl = "*"
wgpu = "*"
