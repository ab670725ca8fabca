[package]
name = "maglev"
version = "0.1.0"
edition = "2021"
publish = false

[dependencies]
defmt = "=1.2.0"
defmt-rtt = "=1.3.1"
embassy-executor = { version = "=0.9.1", features = ["arch-spin", "executor-thread"] }
embassy-stm32 = { version = "=0.6.0", features = ["stm32f401cc", "time-driver-any"] }
embassy-time = "=0.5.1"
embedded-graphics = "=0.8.2"
format_no_std = "=1.2.0"
micromath = "=2.1.0"
panic-probe = "=1.0.0"
ssd1306-i2c = "=0.1.5"
