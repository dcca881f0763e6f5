[package]
name = "r18"
version = "0.1.0"
edition = "2021"
publish = false

[dependencies]
dynfmt = { version = "*", features = ["curly"] }
oxilangtag = "*"
sys-locale = "*"
