[package]
name = "beacn_mic"
version = "0.1.0"
edition = "2021"
publish = false

[dependencies]
anyhow = "1"
byteorder = "1"
eframe = { version = "0.29", default-features = false, features = ["default_fonts", "glow", "x11"] }
egui = "0.29"
log = "0.4"
rusb = "0.9"
simplelog = "0.12"
tokio = { version = "1", features = ["macros", "rt-multi-thread", "sync"] }
