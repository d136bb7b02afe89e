[package]
name = "platform_common"
version = "0.1.0"
edition = "2021"
publish = false

[dependencies]
defmt = "=1.2.0"
embassy-executor = "=0.10.0"
embassy-sync = "=0.8.0"
embassy-time = "=0.5.1"
embedded-batteries-async = "=0.3.4"
embedded-fans-async = "=0.2.0"
embedded-hal = "=1.0.0"
embedded-hal-async = "=1.0.0"
embedded-sensors-hal-async = "=0.4.0"
bq40z50-rx = { version = "=0.9.0", features = ["r5"] }
static_cell = "=2.1.1"
