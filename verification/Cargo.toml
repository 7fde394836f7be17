[package]
name = "i2c_hal"
version = "0.1.0"
edition = "2021"
publish = false

[dependencies]
i2c-linux = "=0.1.2"
