[package]
name = "fuskyom"
version = "0.1.0"
edition = "2021"
publish = false

[dependencies]
ratatui = "0.29"
crossterm = "0.28"
ansi-to-tui = "7"
lofty = "0.22"
anyhow = "1"
