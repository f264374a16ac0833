[package]
name = "power_dashboard"
version = "0.1.0"
edition = "2021"
publish = false

[dependencies]
defmt = "*"
defmt-rtt = "*"
embassy-embedded-hal = "*"
embassy-executor = "*"
embassy-stm32 = { version = "*", features = ["stm32g431cb", "time-driver-any"] }
embassy-sync = "*"
embassy-time = "*"
embedded-alloc = { version = "*", features = ["llff"] }
embedded-graphics = "*"
embedded-hal = "*"
embedded-hal-async = "*"
gc9d01 = { version = "=0.0.1", features = ["async"] }
ina226 = { version = "=0.3.0", features = ["async"] }
panic-probe = "*"
static_cell = "*"
