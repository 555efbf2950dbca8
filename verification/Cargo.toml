[package]
name = "ansi2png"
version = "0.1.0"
edition = "2021"

[dependencies]
unicode-width = "*"
vte = "0.13"
image = { version = "*", default-features = false, features = ["png"] }
ab_glyph = "*"
clap = { version = "*", features = ["derive"] }
regex = "*"
base64 = "*"
chrono = "*"
