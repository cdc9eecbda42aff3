[package]
name = "tube_client"
version = "0.1.0"
edition = "2021"
publish = false

[dependencies]
regex = "=1.13.1"
serde_json = "=1.0.154"
reqwest = { version = "=0.11.27", features = ["blocking", "cookies"] }
clap = { version = "=4.6.7", features = ["derive"] }
eframe = { version = "0.20", default-features = false, features = ["default_fonts", "glow"] }
egui = { version = "0.20", default-features = false, features = ["default_fonts"] }
