[package]
name = "fused_timer"
version = "0.1.0"
edition = "2021"
publish = false

[dependencies]
atsamd-hal = { version = "=0.12.0", features = ["samd21g"] }
cortex-m-rtic = "0.5"
