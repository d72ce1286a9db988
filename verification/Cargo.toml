[package]
name = "juicebox"
version = "0.1.0"
edition = "2021"
publish = false

[dependencies]
image = { version = "0.24", default-features = false, features = ["png"] }
serde = { version = "1", features = ["derive"] }
thiserror = "1"
winit = { version = "0.28", default-features = false, features = ["x11"] }
