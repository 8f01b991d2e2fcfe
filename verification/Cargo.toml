[package]
name = "rgbjpeg"
version = "0.1.0"
edition = "2021"
publish = false

[dependencies]
mozjpeg = "*"
image = "*"
anyhow = "*"
clap = { version = "*", features = ["derive"] }
