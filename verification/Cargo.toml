[package]
name = "db_mg"
version = "0.1.0"
edition = "2021"
publish = false

[dependencies]
chrono = "*"
clearscreen = "*"
colored = "*"
dialoguer = "*"
dirs = "*"
indicatif = "*"
rustyline = "*"
serde = { version = "*", features = ["derive"] }
serde_json = "*"
shellexpand = "*"
walkdir = "*"
