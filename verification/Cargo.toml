[package]
name = "crunch"
version = "0.1.0"
edition = "2021"
publish = false

[dependencies]
cpal = "*"
crossterm = "*"
ratatui = "*"
clap = { version = "4", features = ["derive"] }
hound = "3"
