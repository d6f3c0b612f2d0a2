[package]
name = "rmpc"
version = "0.1.0"
edition = "2021"
publish = false

[dependencies]
time = "*"
mpd = "*"
crossterm = "*"
clap = { version = "*", features = ["derive"] }
clap_complete = "*"
