[package]
name = "horto-os-ui-tui"
version = "0.1.0"
edition = "2021"
publish = false

[dependencies]
anyhow = "1"
chrono = "0.4"
clap = { version = "4", features = ["derive", "env"] }
crossterm = "0.28"
ctrlc = "3"
ratatui = "0.29"
