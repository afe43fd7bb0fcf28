[package]
name = "yubaba"
version = "0.1.0"
edition = "2021"
publish = false

[dependencies]
image = { version = "=0.24.9", default-features = false, features = ["ico", "png"] }
egui = "=0.27.2"
egui_extras = { version = "=0.27.2", default-features = false, features = ["image"] }
pyo3 = { version = "=0.20.3", features = ["auto-initialize"] }
