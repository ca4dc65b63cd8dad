[package]
name = "docshell"
version = "0.1.0"
edition = "2021"
publish = false

[dependencies]
color-eyre = "*"
crossterm = "*"
edtui = "*"
ratatui = "*"
tui-tree-widget = "*"
