[package]
name = "counter_strafe_trainer"
version = "0.1.0"
edition = "2021"
publish = false

[dependencies]
rdev = "0.5"
eframe = { version = "0.29", default-features = false, features = ["default_fonts", "glow", "x11"] }
egui = { version = "0.29", default-features = false }
