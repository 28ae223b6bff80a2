[package]
name = "uart_echo"
version = "0.1.0"
edition = "2021"
publish = false

[dependencies]
cortex-m = { version = "=0.7.10", features = ["critical-section-single-core"] }
cortex-m-rt = "=0.7.7"
rtt-target = "=0.6.2"
stm32l4xx-hal = { version = "=0.7.1", features = ["rt", "stm32l496"] }
