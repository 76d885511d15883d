[package]
name = "button_fetch"
version = "0.1.0"
edition = "2021"
publish = false

[dependencies]
embassy-executor = { version = "0.6", features = ["task-arena-size-32768"] }
embassy-net = { version = "0.4", features = ["tcp", "dhcpv4", "dns", "medium-ethernet"] }
embassy-sync = "0.6"
embassy-time = "0.3"
esp-alloc = "0.5"
esp-backtrace = { version = "0.14", features = ["esp32c3", "exception-handler", "panic-handler", "println"] }
esp-hal = { version = "0.21", features = ["esp32c3"] }
esp-hal-embassy = { version = "0.4", features = ["esp32c3"] }
esp-println = { version = "0.12", features = ["esp32c3"] }
esp-wifi = { version = "0.10", features = ["esp32c3", "wifi", "async", "embassy-net"] }
reqwless = { version = "0.12", default-features = false }
static_assertions = "1.1"
static_cell = "2.1"
