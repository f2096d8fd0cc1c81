[package]
name = "mksubrip"
version = "0.1.0"
edition = "2021"
publish = false

[dependencies]
anyhow = "=1.0.104"
catppuccin-egui = { version = "=5.7.0", default-features = false, features = ["egui27"] }
chrono = { version = "=0.4.45", default-features = false, features = ["std"] }
dirs = "=5.0.1"
egui = "=0.27.2"
egui_dnd = "=0.8.0"
env_logger = { version = "=0.11.11", default-features = false }
log = "=0.4.34"
reqwest = { version = "=0.12.28", default-features = false, features = ["blocking", "multipart"] }
rfd = { version = "=0.14.1", default-features = false, features = ["xdg-portal", "tokio"] }
serde_json = "=1.0.154"
