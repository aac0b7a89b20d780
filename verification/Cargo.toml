[package]
name = "rustrtos"
version = "0.1.0"
edition = "2021"
publish = false

[dependencies]
critical-section = "=1.2.0"
defmt = "*"
embassy-executor = "=0.10.0"
embassy-futures = "=0.1.2"
embassy-sync = "=0.8.0"
embassy-time = "=0.5.1"
esp-backtrace = { version = "*", features = ["esp32s3"] }
esp-hal = { version = "*", features = ["esp32s3"] }
esp-println = { version = "*", features = ["esp32s3"] }
esp-rtos = { version = "*", features = ["esp32s3"] }
heapless = "=0.9.3"
portable-atomic = "=1.15.0"
static_cell = "=2.1.1"
