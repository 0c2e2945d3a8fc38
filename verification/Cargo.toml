[package]
name = "idle_termquest"
version = "0.1.0"
edition = "2021"
publish = false

[dependencies]
rand = "0.8"
crossterm = "0.27"
ratatui = "0.26"
serde = { version = "1", features = ["derive"] }
