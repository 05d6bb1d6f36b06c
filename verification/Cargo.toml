[package]
name = "capture"
version = "0.1.0"
edition = "2021"
publish = false

[dependencies]
anyhow = "1"
block = "0.1"
clap = { version = "4", features = ["derive"] }
cocoa = "*"
gpui2 = "*"
log = "0.4"
objc = "0.2"
rust-embed = { version = "8", features = ["include-exclude"] }
serde = { version = "1", features = ["derive"] }
serde_json = "1"
simplelog = "*"
