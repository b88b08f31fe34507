[package]
name = "bitmap_font"
version = "0.1.0"
edition = "2021"
publish = false

[dependencies]
bincode = "=1.3.3"
minipng = "=1.0.0"
serde = { version = "=1.0.229", features = ["derive"] }
