[package]
name = "clip-otp"
version = "0.1.0"
edition = "2021"
publish = false

[dependencies]
anyhow = "1"
libc = "0.2"
notify-rust = "4"
serde = { version = "1", features = ["derive"] }
toml = "0.8"
x11rb = { version = "0.13", features = ["res"] }
xdg = "2"
