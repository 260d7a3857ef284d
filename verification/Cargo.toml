[package]
name = "maschine"
version = "0.1.0"
edition = "2021"
publish = false

[dependencies]
hsl = "=0.1.1"
midi = "=0.1.0"
nix = { version = "0.29", features = ["fs", "poll"] }
tinyosc = "=0.0.3"
