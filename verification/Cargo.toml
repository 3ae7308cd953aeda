[package]
name = "numeracle"
version = "0.1.0"
edition = "2021"
publish = false

[dependencies]
serde_json = "*"
clap = { version = "*", features = ["derive"] }
atty = "*"
crossterm = "*"
prettytable-rs = "*"
signal-hook = "*"
