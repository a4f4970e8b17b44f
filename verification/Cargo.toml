[package]
name = "bluenrg_provision"
version = "0.1.0"
edition = "2021"
publish = false

[dependencies]
bluenrg = "*"
bluetooth-hci = "*"
cortex-m = "*"
cortex-m-rt = "*"
cortex-m-semihosting = "*"
embedded-hal = "0.2"
nb = "0.1"
panic-semihosting = "*"
stm32f30x = "*"
stm32f30x-hal = "*"
