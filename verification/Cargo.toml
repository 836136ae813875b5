[package]
name = "totem"
version = "0.1.0"
edition = "2021"
publish = false

[dependencies]
smart-leds = "=0.3.0"

[dev-dependencies]
postcard = { version = "=1.0.10", features = ["alloc"] }
serde = "=1.0.229"
