[package]
name = "memory_game"
version = "0.1.0"
edition = "2021"
publish = false

[dependencies]
rand = "0.8"
uuid = { version = "1", features = ["v4"] }
log = "0.4"
sdl2 = "0.37"
rodio = { version = "0.17", default-features = false, features = ["vorbis"] }
