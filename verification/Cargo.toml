[package]
name = "tetris_rules"
version = "0.1.0"
edition = "2021"
publish = false

[dependencies]
rand = "0.7"
bevy = "0.6"
