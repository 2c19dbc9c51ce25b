[package]
name = "findr"
version = "0.1.0"
edition = "2021"
publish = false

[dependencies]
clap = { version = "4", features = ["derive"] }
regex = "1"
walkdir = "2"

[dev-dependencies]
tempfile = "3"
fs-err = "2"
symlink = "0.1"
