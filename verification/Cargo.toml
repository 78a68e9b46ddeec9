[package]
name = "heft"
version = "0.1.0"
edition = "2021"
publish = false

[dependencies]
serde_json = "1"
serde = { version = "1", features = ["derive"] }
toml = "*"
clap = { version = "4", features = ["derive"] }
chrono = "0.4"
directories = "*"
memory-stats = "*"
rusqlite = { version = "*", features = ["bundled"] }
walkdir = "2"
