[package]
name = "reqtui"
version = "0.1.0"
edition = "2021"
publish = false

[dependencies]
clap = { version = "=4.6.7", features = ["derive"] }
crossterm = "=0.29.0"
log = "=0.4.34"
ratatui = "=0.30.2"
reqwest = { version = "=0.13.5", default-features = false, features = ["blocking", "form"] }
serde = { version = "=1.0.229", features = ["derive"] }
serde_json = "=1.0.151"
simple-logging = "=2.0.2"
textwrap = "=0.16.4"
