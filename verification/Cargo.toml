[package]
name = "pong"
version = "0.1.0"
edition = "2021"
publish = false

[dependencies]
embedded-graphics = "=0.7.1"
heapless = "=0.7.17"
cortex-m = "=0.7.7"
cortex-m-rt = "=0.7.7"
cortex-m-semihosting = "=0.5.0"
panic-semihosting = "0.6"
st7735-lcd = "=0.8.1"
stm32f4xx-hal = { version = "=0.13.2", features = ["stm32f401"] }
