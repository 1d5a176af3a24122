[package]
name = "mdcat"
version = "0.1.0"
edition = "2021"
publish = false

[dependencies]
url = "2"
reqwest = { version = "0.11", default-features = false, features = ["blocking"] }
term_size = "0.3"
