[package]
name = "rspm"
version = "0.1.0"
edition = "2021"
publish = false

[dependencies]
chrono = "0.4"
clap = { version = "4", features = ["derive"] }
crossterm = "0.28"
nix = { version = "0.29", features = ["signal"] }
ratatui = "0.29"
sysinfo = "0.33"
