[package]
name = "wrenched"
version = "0.1.0"
edition = "2021"
publish = false

[dependencies]
ropey = "1"
pulldown-cmark = { version = "0.12", default-features = false }
eyre = "0.6"
