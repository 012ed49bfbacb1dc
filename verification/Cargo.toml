[package]
name = "esp32_hal"
version = "0.1.0"
edition = "2021"
publish = false

[dependencies]
embedded-hal = "0.2"
esp-idf-sys = "0.1"
