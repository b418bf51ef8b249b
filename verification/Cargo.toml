[package]
name = "voxtype-systray"
version = "0.1.0"
edition = "2021"
publish = false

[dependencies]
anyhow = "1"
chrono = { version = "0.4", default-features = false, features = ["clock"] }
eframe = { version = "=0.33.3", default-features = false, features = ["default_fonts", "glow", "wayland"] }
image = { version = "=0.25.10", default-features = false, features = ["png"] }
ksni = "=0.3.7"
rfd = { version = "=0.15.4", default-features = false, features = ["xdg-portal", "async-std"] }
serde = { version = "1", features = ["derive"] }
serde_json = "1"
tokio = { version = "1", features = ["io-util", "macros", "process", "rt", "sync", "time"] }
toml_edit = "=0.25.17"
tracing = "0.1"
tracing-subscriber = { version = "0.3", features = ["env-filter"] }
