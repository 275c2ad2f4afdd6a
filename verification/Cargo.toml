[package]
name = "venv_sweeper"
version = "0.1.0"
edition = "2021"
publish = false

[dependencies]
byte-unit = "5"
clap = { version = "4", features = ["derive"] }
ctrlc = "3"
dialoguer = "*"
walkdir = "2"
which = "*"
