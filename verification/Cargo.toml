[package]
name = "button-driver"
version = "0.2.0"
edition = "2021"

[dependencies]
embassy-time = { version = "=0.5.1", features = ["std"] }
embedded-hal = "=1.0.0"
esp-idf-hal = "=0.47.0"
