[package]
name = "viscous"
version = "0.1.0"
edition = "2021"
publish = false

[dependencies]
grafton-visca = { version = "=1.1.0", features = ["test-utils"] }
crossterm = "=0.29.0"
ratatui = { version = "=0.30.2", default-features = false, features = ["crossterm"] }
directories = "=6.0.0"
serde = { version = "1", features = ["derive"] }
toml = "=0.9.12"
gilrs = "=0.11.2"
egui = { version = "=0.34.3", default-features = false }
eframe = { version = "=0.34.3", default-features = false, features = ["default_fonts", "glow", "x11"] }
