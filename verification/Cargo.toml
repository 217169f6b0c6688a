[package]
name = "levenshtein_rust"
version = "0.1.0"
edition = "2021"
publish = false

[dependencies]
rb-sys = "0.9"
