[package]
name = "regex_speed"
version = "0.1.0"
edition = "2021"
publish = false

[dependencies]
regex-lite = "0.1"
rand = "0.8"
clap = { version = "4", features = ["derive"] }
plotters = "0.3"
