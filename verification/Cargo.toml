[package]
name = "agenda_client"
version = "0.1.0"
edition = "2021"
publish = false

[dependencies]
chrono = { version = "0.4", features = ["serde"] }
color-eyre = "0.6"
crossterm = "=0.28.1"
oauth2 = { version = "4", default-features = false }
ratatui = "=0.29.0"
reqwest = { version = "0.12", default-features = false, features = ["blocking", "json"] }
serde = { version = "1", features = ["derive"] }
serde_json = "1"
tui-textarea = "=0.7.0"
uuid = { version = "1", features = ["serde"] }
