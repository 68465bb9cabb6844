[package]
name = "low_power"
version = "0.1.0"
edition = "2021"
publish = false

[dependencies]
cortex-m = "0.7"
critical-section = "1"
defmt = "1"
embassy-futures = "*"
stm32-metapac = { version = "*", features = ["stm32l072vz"] }
