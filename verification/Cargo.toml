[package]
name = "pico_de_gallo"
version = "0.1.0"
edition = "2021"
publish = false

[dependencies]
clap = { version = "4", features = ["derive"] }
nusb = "0.2"

[dev-dependencies]
postcard = { version = "1", features = ["use-std"] }
