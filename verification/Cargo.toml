[package]
name = "esp32_shenanigans"
version = "0.1.0"
edition = "2021"
publish = false

[dependencies]
critical-section = "1.1"
embassy-executor = "0.3.3"
embassy-time = "0.1.5"
esp-alloc = "0.3.0"
esp-backtrace = { version = "=0.20.0", features = ["esp32", "panic-handler", "println"] }
esp-println = { version = "=0.18.0", features = ["esp32", "log-04"] }
esp32-hal = "=0.16.0"
log = "0.4"
nb = "1"
