[package]
name = "redo"
version = "0.1.0"
edition = "2021"
publish = false

[dependencies]
crossterm = "0.28"
ratatui = "0.29"
tracing = "0.1"
tracing-appender = "0.2"
tracing-subscriber = "0.3"
