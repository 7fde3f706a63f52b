[package]
name = "scifi_widgets"
version = "0.1.0"
edition = "2021"
publish = false

[dependencies]
ratatui = "*"
ratatui-style = "*"
pulldown-cmark = { version = "*", default-features = false }
