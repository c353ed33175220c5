[package]
name = "efm32pg1b_hal"
version = "0.1.0"
edition = "2021"
publish = false

[dependencies]
efm32pg1b-pac = "*"
embedded-hal = "1"
