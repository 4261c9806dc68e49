[package]
name = "midi_hkd"
version = "0.1.0"
edition = "2021"
publish = false

[dependencies]
easy-args = "*"
home = "0.5"
midir = "0.9"
toml = "0.8"
