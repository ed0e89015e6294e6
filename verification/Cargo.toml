[package]
name = "clipboard_queue"
version = "0.1.0"
edition = "2021"
publish = false

[dependencies]
md-5 = "0.10"
image = { version = "0.25", default-features = false }
eframe = { version = "0.28", default-features = false, features = ["glow", "default_fonts"] }
egui = "0.28"
egui_extras = "0.28"
rdev = "0.5"
tokio = { version = "1", features = ["rt-multi-thread", "macros", "time"] }
clipboard-win = "5"
winapi = { version = "0.3", features = ["winuser"] }
lazy_static = "1"
thiserror = "1"
