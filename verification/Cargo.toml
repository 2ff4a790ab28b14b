[package]
name = "tged"
version = "0.1.0"
edition = "2021"
publish = false

[dependencies]
widestring = "*"
getch-rs = "*"
crossbeam-channel = "*"
signal-hook = "*"
clap = { version = "*", features = ["derive"] }
