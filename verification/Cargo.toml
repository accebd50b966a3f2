[package]
name = "dirt"
version = "0.1.0"
edition = "2021"
publish = false

[dependencies]
chrono = "0.4"
color-eyre = "0.6"
crossterm = "0.28"
dirs = "6"
git2 = { version = "0.20", default-features = false }
image = { version = "0.25", default-features = false, features = ["png", "jpeg", "gif", "webp", "bmp"] }
ratatui = "0.29"
serde = { version = "1", features = ["derive"] }
sha2 = "0.10"
toml = "0.8"
trash = "5"
viuer = "0.9"
