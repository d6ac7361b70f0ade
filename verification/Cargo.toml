[package]
name = "cdrip"
version = "0.1.0"
edition = "2021"
publish = false

[dependencies]
aho-corasick = "*"
anyhow = "*"
cdparanoia = "*"
clap = { version = "*", features = ["derive"] }
dialoguer = "*"
discid = "*"
flac-bound = "*"
serde = { version = "*", features = ["derive"] }
serde_json = "*"
serde_path_to_error = "*"
ureq = "*"
