[package]
name = "monitor_fw"
version = "0.1.0"
edition = "2021"
publish = false

[dependencies]
usb-device = "0.2"
embedded-hal = "0.2"
nb = "0.1"
volatile-register = "0.2"
cortex-m = "0.6"
cortex-m-rt = "0.6"
stm32f1xx-hal = { version = "0.5", features = ["stm32f103", "rt"] }
