[package]
name = "launchpad_emulator"
version = "0.1.0"
edition = "2021"
publish = false

[dependencies]
chrono = "0.4.45"
midir = "0.10.4"
egui = { version = "0.37.0", default-features = false, features = ["default_fonts"] }
eframe = { version = "0.37.0", default-features = false, features = ["default_fonts", "glow", "x11"] }
thiserror = "2.0.21"
tracing = "0.1.44"
tracing-subscriber = { version = "0.3.23", default-features = false, features = ["env-filter", "fmt", "std", "ansi"] }
