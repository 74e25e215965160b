[package]
name = "tranquilo"
version = "0.1.0"
edition = "2021"
publish = false

[dependencies]
anyhow = "1"
chrono = "=0.4.45"
cpal = "0.15"
directories = "5"
hex_color = "=3.0.0"
rodio = "0.19"
serde = { version = "1", features = ["derive"] }
serde_json = "1"
single-instance = "0.3"
sqlite = "=0.36.2"
walkdir = "2"
