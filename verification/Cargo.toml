[package]
name = "mun_client"
version = "0.1.0"
edition = "2021"
publish = false

[dependencies]
crossterm = "=0.20.0"
reqwest = { version = "=0.11.27", default-features = false, features = ["blocking"] }
serde = { version = "=1.0.229", features = ["derive"] }
serde_json = "=1.0.151"
tui = { version = "=0.16.0", default-features = false, features = ["crossterm"] }
