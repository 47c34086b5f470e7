[package]
name = "lookup"
version = "0.1.0"
edition = "2021"
publish = false

[dependencies]
anyhow = "1"
clap = { version = "4", features = ["derive"] }
colored = "2"
rayon = "1"
regex = "1"
walkdir = "2"
