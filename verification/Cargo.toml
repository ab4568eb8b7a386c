[package]
name = "y4m2d2"
version = "0.1.0"
edition = "2021"
publish = false

[dependencies]
chrono = "*"
kamadak-exif = "*"
image = "*"
rayon = "*"
serde = { version = "*", features = ["derive"] }
serde_json = "*"
toml = "*"
