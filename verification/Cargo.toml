[package]
name = "goose_dsp"
version = "1.0.0"
edition = "2021"
publish = false

[dependencies]
cpal = "0.15"
dirs = "5"
hound = "3.5"
serde = { version = "1", features = ["derive"] }
toml = "0.8"
