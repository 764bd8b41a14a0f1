[package]
name = "lplora"
version = "0.1.0"
edition = "2021"
publish = false

[dependencies]
crc = "3"
heapless = "0.8"
stm32wlxx-hal = { version = "0.6", features = ["stm32wle5"] }
cortex-m = "0.7"
