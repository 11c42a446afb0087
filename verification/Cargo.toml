[package]
name = "result_guide"
version = "0.1.0"
edition = "2021"
publish = false

[dependencies]
clap = { version = "=4.4.18", features = ["derive"] }
eframe = { version = "=0.22.0", default-features = false, features = ["glow"] }
eyre = "0.6"
reqwest = { version = "=0.11.27", default-features = false, features = ["blocking"] }
serde = { version = "1", features = ["derive"] }
serde_json = "1"
