[package]
name = "sophgo_hal"
version = "0.1.0"
edition = "2021"
publish = false

[dependencies]
uart16550 = "*"
embedded-time = "*"
base-address = "*"
volatile-register = "*"
embedded-hal = "*"
embedded-io = "*"
