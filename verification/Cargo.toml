[package]
name = "tail_spotify"
version = "0.1.0"
edition = "2021"
publish = false

[dependencies]
base64 = "*"
clap = { version = "*", features = ["derive"] }
confy = "*"
serde = { version = "*", features = ["derive"] }
serde_derive = "*"
serde_json = "*"
ureq = { version = "*", default-features = false }
