[package]
name = "csvlens"
version = "0.1.0"
edition = "2021"
publish = false

[dependencies]
anyhow = "1"
clap = { version = "3", features = ["derive"] }
crossterm = "0.25"
csv = "1"
regex = "1"
tempfile = "3"
tui = "0.19"
