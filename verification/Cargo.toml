[package]
name = "glrail"
version = "0.1.0"
edition = "2021"
publish = false

[dependencies]
log = "0.4"
simple-logging = "*"
sdl2 = "0.37"
gl = "0.14"
serde_json = "1"
