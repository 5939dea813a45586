[package]
name = "dwarf_seeks_fortune"
version = "0.1.0"
edition = "2021"
publish = false

[dependencies]
amethyst = { version = "=0.15.3", default-features = false, features = ["animation", "audio", "renderer"] }
serde = { version = "1", features = ["derive"] }
log = "0.4"
