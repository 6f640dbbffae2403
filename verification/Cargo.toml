[package]
name = "disc_label"
version = "0.1.0"
edition = "2021"
publish = false

[dependencies]
ab_glyph = "*"
clap = { version = "*", features = ["derive"] }
dirs = "*"
imageproc = "*"
serde = { version = "*", features = ["derive"] }
serde_derive = "*"
toml = "*"
