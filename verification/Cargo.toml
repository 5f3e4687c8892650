[package]
name = "iced_audio"
version = "0.1.0"
edition = "2021"
publish = false

[dependencies]
iced_native = "0.5"
iced_graphics = "0.3"
