[package]
name = "template"
version = "0.1.0"
edition = "2021"
publish = false

[dependencies]
toml = "0.5"
once_cell = "1"
log = "0.4"
