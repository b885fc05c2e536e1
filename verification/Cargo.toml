[package]
name = "buoyant"
version = "0.1.0"
edition = "2021"
publish = false

[dependencies]
rayon = "=1.12.0"
rustc-hash = "=2.1.3"
chrono = "=0.4.45"
file_type = "=0.8.11"
serde = { version = "=1.0.229", features = ["derive"] }
toml = "=1.1.8"
tokio = { version = "=1.54.1", features = ["rt-multi-thread", "macros", "time"] }
eframe = { version = "*", default-features = false, features = ["default_fonts", "glow", "wayland", "x11"] }
egui_extras = { version = "*", default-features = false, features = ["svg"] }
wl-clipboard-rs = "*"
