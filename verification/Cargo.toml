[package]
name = "bidirectional_pin"
version = "0.1.0"
edition = "2021"
publish = false

[dependencies]
embedded-hal = "1"
embassy-nrf = { version = "*", features = ["nrf52840"] }
rmk = "*"
