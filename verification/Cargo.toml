[package]
name = "waybar_data_provider"
version = "0.1.0"
edition = "2021"
publish = false

[dependencies]
chrono = "0.4"
reqwest = { version = "0.12", features = ["blocking"] }
serde = { version = "1", features = ["derive"] }
serde-aux = "4"
serde_json = "1"
tiny_http = "0.12"
