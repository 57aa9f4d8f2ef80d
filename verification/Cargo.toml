[package]
name = "codex_mylib"
version = "0.1.0"
edition = "2021"
publish = false

[dependencies]
base64 = "0.13"
clap = "2"
csv = "1"
json = "0.12"
log = "0.4"
reqwest = { version = "0.11", default-features = false, features = ["blocking"] }
xml-rs = "0.8"
