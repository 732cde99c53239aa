[package]
name = "rome_js_analyze"
version = "0.1.0"
edition = "2021"
publish = false

[dependencies]
lazy_static = "1.5.1"
serde = { version = "=1.0.229", features = ["derive"] }
