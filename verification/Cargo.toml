[package]
name = "cursor_lock"
version = "0.1.0"
edition = "2021"
publish = false

[dependencies]
crossterm = "0.27"
winit = "0.29"
winapi = { version = "0.3", features = ["winuser", "windef"] }
