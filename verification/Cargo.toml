[package]
name = "rusty_meter"
version = "0.1.0"
edition = "2021"
publish = false

[dependencies]
chrono = { version = "0.4", features = ["serde"] }
eframe = { version = "0.33", default-features = false, features = ["glow", "x11", "persistence", "default_fonts"] }
egui = { version = "0.33", features = ["serde"] }
egui_dock = "0.18"
egui-dropdown = "0.14"
epaint = { version = "0.33" }
mio = { version = "1", features = ["os-poll", "os-ext"] }
mio-serial = { version = "5", default-features = false }
serde = { version = "1", features = ["derive"] }
tempfile = "3"
tokio = { version = "1", features = ["rt-multi-thread", "macros", "sync", "time"] }
