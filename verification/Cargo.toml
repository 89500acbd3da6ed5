[package]
name = "bclicker"
version = "0.1.0"
edition = "2021"
publish = false

[dependencies]
crossterm = "=0.25.0"
enigo = "=0.1.3"
serde = { version = "=1.0.229", features = ["derive"] }
toml = "=0.8.23"
tui = "=0.19.0"
