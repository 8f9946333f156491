[package]
name = "hutctl"
version = "0.1.0"
edition = "2021"
publish = false

[dependencies]
clap = { version = "4", features = ["derive"] }
crossterm = "0.28"
dotenv = "0.15"
inquire = { version = "0.7", features = ["date"] }
log = "0.4"
nix = { version = "0.29", features = ["user"] }
ratatui = { version = "0.29", features = ["widget-calendar"] }
reqwest = { version = "0.12", features = ["json", "blocking"] }
serde = { version = "1", features = ["derive"] }
serde_json = "1"
thiserror = "1"
time = { version = "0.3", features = ["serde", "serde-well-known", "formatting", "parsing"] }
tokio = { version = "1", features = ["full"] }
tui-textarea = "0.7"
