[package]
name = "todl"
version = "0.1.0"
edition = "2021"
publish = false

[dependencies]
git2 = { version = "*", default-features = false }
walkdir = "*"
chrono = "*"
clap = { version = "*", features = ["derive"] }
crossterm = "*"
atty = "*"
serde = { version = "*", features = ["derive"] }
serde_json = "*"
unicode-segmentation = "*"
