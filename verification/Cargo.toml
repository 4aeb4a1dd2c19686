[package]
name = "vulka"
version = "0.1.0"
edition = "2021"
publish = false

[dependencies]
ash = "0.37"
ash-window = "0.12"
raw-window-handle = "0.5"
winit = { version = "0.29", default-features = false, features = ["rwh_05", "x11"] }
gilrs = { version = "0.10", default-features = false }
glam = "0.25"
memoffset = "0.9"
vma = "0.3"
enumflags2 = "0.7"
image = { version = "0.24", default-features = false, features = ["png"] }
