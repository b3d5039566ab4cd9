[package]
name = "iota_wallet_tui"
version = "0.1.0"
edition = "2021"
publish = false

[dependencies]
hex = "0.4"
serde = { version = "1", features = ["derive"] }
serde_json = "1"
dirs = "*"
arboard = "*"
crossterm = "*"
ratatui = "*"
tokio = { version = "1", features = ["rt-multi-thread", "macros", "sync", "time"] }
futures = "0.3"
color-eyre = "*"
base64ct = { version = "*", features = ["alloc"] }
rand = "*"
