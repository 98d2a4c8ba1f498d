[package]
name = "bootty_app"
version = "0.1.0"
edition = "2021"
publish = false

[dependencies]
eframe = { version = "*", default-features = false }
fontdb = "*"
keepawake = "*"
anyhow = "*"
