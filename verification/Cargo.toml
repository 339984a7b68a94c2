[package]
name = "martty"
version = "0.2.39"
edition = "2021"
publish = false

[dependencies]
agent-client-protocol = "*"
crossterm = "*"
libc = "0.2"
ratatui = "*"
serde = { version = "1", features = ["derive"] }
serde_json = "1"
tokio = { version = "1", features = ["sync", "rt"] }
tui-tree-widget = "*"
unicode-width = "*"
