[package]
name = "rnote"
version = "0.1.0"
edition = "2021"
publish = false

[dependencies]
syntect = { version = "*", default-features = false, features = ["default-syntaxes", "default-themes", "regex-fancy", "parsing"] }
pulldown-cmark = "*"
ratatui = "*"
crossterm = "*"
edtui = "*"
edtui-jagged = "*"
tui-widget-list = "*"
chrono = { version = "*", features = ["serde"] }
serde = { version = "*", features = ["derive"] }
serde_json = "*"
dirs = "*"
color-eyre = "*"
