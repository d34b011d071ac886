[package]
name = "ruspiro_uart"
version = "0.4.0"
edition = "2021"
publish = false

[dependencies]
ruspiro-console = "=0.3.2"
ruspiro-error = "=0.1.1"
ruspiro-gpio = "=0.4.3"
ruspiro-interrupt = "=0.3.1"
ruspiro-mmio-register = "=0.1.4"
ruspiro-register = "=0.5.5"
ruspiro-singleton = "=0.4.3"
ruspiro-timer = "=0.4.1"
