[package]
name = "grindstone"
version = "0.1.0"
edition = "2021"
publish = false

[dependencies]
chrono = "*"
color-eyre = "*"
crossterm = "*"
directories = "*"
log = "*"
ratatui = "*"
rusqlite = { version = "*", features = ["bundled"] }
simplelog = "*"
thiserror = "*"
