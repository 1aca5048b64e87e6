[package]
name = "wait-for"
version = "0.1.0"
edition = "2021"
publish = false

[dependencies]
anyhow = "1"
clap = { version = "4", features = ["derive"] }
is-terminal = "0.4"
reqwest = { version = "0.12", features = ["blocking"] }
termcolor = "1"
url = "2"
