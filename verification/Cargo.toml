[package]
name = "aserial"
version = "0.1.0"
edition = "2021"
publish = false

[dependencies]
cpal = "*"
minifb = "*"
plotters = "*"
rodio = "*"
rustfft = "*"
serde = { version = "*", features = ["derive"] }
toml = "*"
