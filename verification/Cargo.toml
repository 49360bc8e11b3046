[package]
name = "steam-rs"
version = "0.5.1"
edition = "2021"

[dependencies]
rayon = "1"
reqwest = { version = "0.12", features = ["json"] }
serde = { version = "1", features = ["derive"] }
serde_json = "1"
