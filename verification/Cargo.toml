[package]
name = "climate_monitor"
version = "0.1.0"
edition = "2021"
publish = false

[dependencies]
heapless = "0.7"
embedded-hal = "0.2"
cortex-m = "0.7"
cortex-m-rt = "0.7"
dht11 = "*"
panic-semihosting = "*"
stm32f3xx-hal = { version = "*", features = ["stm32f303xc", "rt"] }
