[package]
name = "rm_main"
version = "0.1.0"
edition = "2021"
publish = false

[dependencies]
fuzzy-matcher = "=0.3.7"
ratatui = "=0.26.3"
ratatui-macros = "=0.4.0"
crossterm = "=0.27.0"
tokio = { version = "=1.54.1", features = ["macros", "rt-multi-thread", "sync", "time"] }
transmission-rpc = "=0.4.3"
