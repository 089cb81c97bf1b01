[package]
name = "notes_server"
version = "0.1.0"
edition = "2021"
publish = false

[dependencies]
orgize = "*"
pulldown-cmark = "*"
clap = { version = "*", features = ["derive"] }
walkdir = "*"
tiny_http = "*"
