[package]
name = "reqtui"
version = "0.1.0"
edition = "2021"
publish = false

[dependencies]
crossterm = "0.27"
ratatui = "0.26"
curl = "0.4"
serde_json = "1"
