[package]
name = "audio_fx"
version = "0.1.0"
edition = "2021"
publish = false

[dependencies]
circular-buffer = "*"
fundsp = "0.16"
numeric-array = "0.5"
rand = "0.8"
typenum = "1"
