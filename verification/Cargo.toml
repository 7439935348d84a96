[package]
name = "car_core"
version = "0.1.0"
edition = "2021"
publish = false

[dependencies]
cortex-m-rt = "*"
embedded-hal = "1.0"
microbit-v2 = "*"
nrf52833-hal = "*"
panic-halt = "*"
rtt-target = "*"
