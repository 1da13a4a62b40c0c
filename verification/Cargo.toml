[package]
name = "app_launcher"
version = "0.1.0"
edition = "2021"
publish = false

[dependencies]
serde = { version = "=1.0.229", features = ["derive"] }
serde_json = "=1.0.154"
slint = { version = "=1.18.1", default-features = false, features = ["std", "compat-1-2"] }
i-slint-core = { version = "=1.18.1", default-features = false, features = ["image-decoders"] }
