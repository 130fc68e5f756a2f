[package]
name = "alvr_dfr"
version = "0.1.0"
edition = "2021"
publish = false

[dependencies]
bincode = "1.3"
chrono = "0.4"
csv = "1"
glam = { version = "0.29", features = ["serde"] }
openxr = { version = "0.19", default-features = false }
serde = { version = "1", features = ["derive"] }
serde_json = "1"
