[package]
name = "ner_firmware"
version = "0.1.0"
edition = "2021"
publish = false

[dependencies]
embassy-sync = "*"
embassy-time = { version = "*", features = ["std"] }
embedded-can = "*"
heapless = "*"
libm = "*"
uom = "*"
