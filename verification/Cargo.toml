[package]
name = "snake_game"
version = "0.1.0"
edition = "2021"
publish = false

[dependencies]
bincode = "2"
crossterm = "0.28"
rand = "0.9"
