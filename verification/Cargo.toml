[package]
name = "blinky"
version = "0.1.0"
edition = "2021"
publish = false

[dependencies]
cast = "*"
cortex-m = "*"
cortex-m-rt = "*"
stm32f429 = "*"
