[package]
name = "jam1emu"
version = "0.1.0"
edition = "2021"
publish = false

[dependencies]
indexmap = "=2.14.2"
vte = "=0.15.0"
crossbeam = "=0.8.5"
clap = { version = "=4.6.7", features = ["derive"] }
crossterm = "=0.29.0"
