[package]
name = "outphase"
version = "0.1.0"
edition = "2021"
publish = false

[dependencies]
wav = "1"
clap = { version = "4", features = ["derive"] }
