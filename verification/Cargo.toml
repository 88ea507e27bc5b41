[package]
name = "qspi"
version = "0.1.0"
edition = "2021"
publish = false

[dependencies]
nrf-pac = { version = "=0.1.0", features = ["nrf52840"] }
embedded-storage = "=0.3.2"
embedded-storage-async = "=0.4.2"
embassy-sync = "=0.7.2"
embassy-hal-internal = { version = "=0.3.0", features = ["cortex-m", "prio-bits-3"] }
cortex-m = "=0.7.10"
critical-section = "=1.2.0"
