[package]
name = "kana_tui"
version = "0.1.0"
edition = "2021"
publish = false

[dependencies]
crossterm = "=0.28.1"
dirs = "=7.0.0"
rand = "=0.9.5"
ratatui = "=0.29.0"
serde = { version = "=1.0.229", features = ["derive"] }
tokio = { version = "=1.54.1", features = ["macros", "rt-multi-thread", "sync", "time"] }
toml = "=1.1.8"
tui-popup = "0.6"
tui-prompts = "0.5"
