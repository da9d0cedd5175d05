[package]
name = "ramp"
version = "0.1.0"
edition = "2021"
publish = false

[dependencies]
anyhow = "1"
bitcode = { version = "0.5", features = ["serde"] }
crossterm = "0.27"
dirs = "5"
image = { version = "0.24", default-features = false, features = ["png", "jpeg"] }
itertools = "0.12"
log = "0.4"
ordered-float = { version = "4", features = ["serde"] }
ratatui = "0.24"
serde = { version = "1", features = ["derive"] }
serde_json = "1"
simplelog = "0.12"
strsim = "0.10"
symphonia = "0.5"
tempfile = "3"
walkdir = "2"
