[package]
name = "audio_plugins"
version = "0.1.0"
edition = "2021"
publish = false

[dependencies]
crossbeam-queue = "0.3"
arc-swap = "1"
