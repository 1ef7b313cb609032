[package]
name = "kvedit"
version = "0.1.0"
edition = "2021"
publish = false

[dependencies]
serde_json = "1"
crossterm = "0.28"
ratatui = "0.29"
