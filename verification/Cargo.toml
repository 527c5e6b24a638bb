[package]
name = "rrm"
version = "0.1.0"
edition = "2021"
publish = false

[dependencies]
chrono = "*"
clap = { version = "*", features = ["derive"] }
color-eyre = "*"
dirs-next = "*"
ratatui = "*"
rayon = "*"
unicode-width = "*"
