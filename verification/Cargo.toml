[package]
name = "esp32_logger"
version = "0.1.0"
edition = "2021"
publish = false

[dependencies]
log = "0.4"
esp32-hal = "0.3"
