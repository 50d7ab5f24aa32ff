[package]
name = "cst816"
version = "0.1.0"
edition = "2021"
publish = false

[dependencies]
critical-section = "1"
embedded-graphics = "0.8"
embedded-hal-bus = "0.2"
esp-alloc = "0.4"
esp-backtrace = { version = "0.13", features = ["esp32s3", "panic-handler", "exception-handler", "println"] }
esp-hal = { version = "0.19", features = ["esp32s3"] }
esp-println = { version = "0.10", features = ["esp32s3", "log"] }
gc9a01-rs = "*"
log = "0.4"
micromath = "2"
nb = "1"
