[package]
name = "resonance"
version = "0.1.0"
edition = "2021"
publish = false

[dependencies]
gtk4 = { version = "0.6", features = ["v4_8"] }
libadwaita = { version = "0.3", features = ["v1_2"] }
log = "0.4"
