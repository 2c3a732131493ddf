[package]
name = "flutter_engine"
version = "0.1.0"
edition = "2021"
publish = false

[dependencies]
glfw = { version = "=0.31.0", default-features = false }
lazy_static = "=1.5.1"
log = "=0.4.35"
tokio = "=0.1.22"
