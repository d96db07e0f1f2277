[package]
name = "markdown_app"
version = "0.1.0"
edition = "2021"
publish = false

[dependencies]
iced = "0.10"
