[package]
name = "dlsite-tui"
version = "0.1.0"
edition = "2021"
publish = false

[dependencies]
anyhow = "1"
cookie_store = "0.21"
crossterm = "0.28"
directories = "5"
ratatui = "0.29"
reqwest = { version = "0.12", default-features = false, features = ["blocking", "cookies", "json", "rustls-tls"] }
reqwest_cookie_store = "0.8"
rusqlite = { version = "0.32", features = ["bundled"] }
serde = { version = "1", features = ["derive"] }
serde_json = "1"
