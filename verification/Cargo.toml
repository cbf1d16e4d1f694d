[package]
name = "key_shortcuts"
version = "0.1.0"
edition = "2021"
publish = false

[dependencies]
anyhow = "1"
directories = "4"
kdl = "4"
serde_json = "1"
winit = { version = "0.27", default-features = false, features = ["serde", "x11"] }
