[package]
name = "what_you_shouldnt_care_about_in_2026"
version = "0.1.0"
edition = "2021"
publish = false

[dependencies]
rand = "0.8"
crossterm = "0.28"
ratatui = "0.29"
