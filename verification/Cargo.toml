[package]
name = "rbgn"
version = "0.1.0"
edition = "2021"
publish = false

[dependencies]
linereader = "0.4"
clap = { version = "4", features = ["derive", "cargo"] }
