[package]
name = "phasmoclock"
version = "0.1.0"
edition = "2021"
publish = false

[dependencies]
evdev = "=0.13.2"
kbd-evdev = "=0.2.1"
rdev = "=0.5.3"
serde = { version = "=1.0.229", features = ["derive"] }
serde_json = "=1.0.154"
directories = "=6.0.0"
anyhow = "=1.0.104"
image = { version = "=0.25.10", default-features = false, features = ["png"] }
rust-embed = { version = "=8.13.0", features = ["include-exclude"] }
windows = "=0.62.2"
