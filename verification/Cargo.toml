[package]
name = "portfolio_tui"
version = "0.1.0"
edition = "2021"
publish = false

[dependencies]
crossterm = "0.27"
dotenvy = "0.15"
open = "5"
ratatui = "0.26"
reqwest = { version = "0.12", features = ["json"] }
serde = { version = "1", features = ["derive"] }
tokio = { version = "1", features = ["full"] }
