[package]
name = "monochrome_presence"
version = "0.1.0"
edition = "2021"
publish = false

[dependencies]
serde_json = "*"
discord-rich-presence = "*"
