[package]
name = "cfern"
version = "0.1.0"
edition = "2021"
publish = false

[dependencies]
camino = "1"
clap = { version = "4", features = ["derive"] }
color-eyre = "0.6"
regex = "1"
