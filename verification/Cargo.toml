[package]
name = "emoji_gen"
version = "0.1.0"
edition = "2021"
publish = false

[dependencies]
skia-safe = "*"
napi = "2"
napi-derive = "2"
