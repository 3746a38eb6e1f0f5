[package]
name = "camera_app"
version = "0.1.0"
edition = "2021"
publish = false

[dependencies]
anyhow = "=1.0.104"
chrono = "=0.4.45"
crossbeam-channel = "=0.5.17"
dirs = "=7.0.0"
futures-lite = "=2.6.1"
gstreamer = "=0.23.7"
gstreamer-app = "=0.23.5"
image = { version = "=0.25.10", default-features = false, features = ["jpeg"] }
slint = { version = "=1.18.1", default-features = false, features = ["std", "compat-1-2"] }
zbus = "=6.2.1"
