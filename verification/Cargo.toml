[package]
name = "nih_plug_slint"
version = "0.1.0"
edition = "2021"
publish = false

[dependencies]
baseview = { version = "0.1", features = ["opengl"] }
crossbeam = "0.8"
keyboard-types = { version = "0.6", default-features = false }
once_cell = "1"
serde = { version = "1", features = ["derive"] }
slint = { version = "~1.15", default-features = false, features = ["compat-1-2", "std"] }
