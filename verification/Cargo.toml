[package]
name = "maiden-run"
version = "0.1.0"
edition = "2021"
publish = false

[dependencies]
clap = "4"
http = "1"
notify = "*"
tungstenite = "*"
url = "2"
