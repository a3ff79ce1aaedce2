[package]
name = "gridpointer"
version = "0.1.0"
edition = "2021"
publish = false

[dependencies]
dirs = "*"
evdev = "*"
notify = "*"
serde = { version = "*", features = ["derive"] }
thiserror = "*"
tokio = { version = "*", features = ["full"] }
toml = "*"
tracing = "*"
wayland-client = "*"
wayland-protocols-wlr = { version = "*", features = ["client"] }
