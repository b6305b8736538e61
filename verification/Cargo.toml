[package]
name = "gcz"
version = "0.1.0"
edition = "2021"
publish = false

[dependencies]
clap = { version = "4", features = ["cargo"] }
crossterm = "*"
tempfile = "3"
unicode-segmentation = "1"
unicode-width = "*"
