[package]
name = "trinket"
version = "0.1.0"
edition = "2021"
publish = false

[dependencies]
chrono = { version = "=0.4.45", default-features = false, features = ["clock"] }
dirs = "=7.0.0"
eframe = { version = "=0.29.1", default-features = false, features = ["default_fonts", "glow", "x11"] }
egui = "=0.29.1"
egui_extras = { version = "=0.29.1", default-features = false }
env_logger = { version = "=0.11.11", default-features = false }
global-hotkey = "=0.9.0"
image = { version = "=0.25.10", default-features = false, features = ["ico"] }
log = "=0.4.34"
serde = { version = "=1.0.229", features = ["derive"] }
tempfile = "=3.27.0"
tray-icon = { version = "=0.26.1", default-features = false, features = ["ksni"] }
uuid = { version = "=1.29.0", features = ["v4"] }
