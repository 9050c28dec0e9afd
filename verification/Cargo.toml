[package]
name = "glogout"
version = "0.3.0"
edition = "2021"
publish = false

[dependencies]
anyhow = "1"
async-channel = "2"
clap = { version = "4", features = ["derive"] }
gtk4 = "*"
gtk4-layer-shell = "*"
webkit6 = "*"
notify = "*"
notify-debouncer-full = "*"
serde = { version = "1", features = ["derive"] }
toml = "*"
