[package]
name = "musicus"
version = "0.1.0"
edition = "2021"
publish = false

[dependencies]
crossbeam = "0.8"
dirs = "*"
pancurses = "*"
rand = "0.8"
rodio = "0.14"
serde = { version = "1", features = ["derive"] }
serde_json = "1"
