[package]
name = "ats_wire"
version = "0.1.0"
edition = "2021"
publish = false

[dependencies]
heapless = "0.8"
minicbor = "*"
minicbor-serde = "*"
nalgebra = "*"
opencv-ros-camera = "*"
serde = { version = "1", features = ["derive"] }
thiserror = "*"
