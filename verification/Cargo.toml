[package]
name = "gbm"
version = "0.1.0"
edition = "2021"
publish = false

[dependencies]
bitflags = { version = "=2.13.2", features = ["serde"] }
drm = "=0.15.0"
drm-fourcc = "=2.2.0"
libc = "=0.2.191"
serde = { version = "=1.0.229", features = ["derive"] }
wayland-server = { version = "=0.31.14", features = ["system", "dlopen"] }
