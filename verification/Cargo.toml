[package]
name = "firmware_tool"
version = "0.1.0"
edition = "2021"
publish = false

[dependencies]
arabic_reshaper = "=0.4.2"
unicode-bidi = "=0.3.18"
eframe = { version = "=0.29.1", default-features = false, features = ["glow", "default_fonts", "x11"] }
resvg = "*"
usvg = "*"
tiny-skia = "*"
winapi = { version = "0.3", features = ["winuser", "windef", "minwindef"] }
