[package]
name = "sht3x"
version = "0.1.0"
edition = "2021"
publish = false

[dependencies]
embedded-hal = "=1.0.0"
esp-hal = { version = "=1.2.2", features = ["esp32c3", "unstable"] }
esp-backtrace = { version = "=0.20.0", features = ["esp32c3", "panic-handler", "println"] }
esp-println = { version = "=0.18.0", features = ["esp32c3", "log-04"] }
log = "=0.4.34"
