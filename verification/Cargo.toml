[package]
name = "rserve"
version = "0.1.0"
edition = "2021"
publish = false

[dependencies]
chrono = "0.4"
ctrlc = "3"
reqwest = "0.12"
serde = { version = "1", features = ["derive"] }
serde_json = "1"
