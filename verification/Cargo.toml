[package]
name = "fmod_bridge"
version = "0.1.0"
edition = "2021"
publish = false

[dependencies]
crossbeam-channel = "0.5"
once_cell = "1"
paste = "1"
magnus = { version = "0.5", features = ["rb-sys-interop"] }
rb-sys = "0.9"
