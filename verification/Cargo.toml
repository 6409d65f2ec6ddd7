[package]
name = "resume_wizard"
version = "0.1.0"
edition = "2021"
publish = false

[dependencies]
color-eyre = "0.6"
crossterm = "0.28"
ratatui = "0.29"
serde = { version = "1", features = ["derive"] }
serde_yaml = "0.9"
time = "0.3"
typst = "0.12"
typst-pdf = "0.12"
