[package]
name = "embassy_ti_cc2650"
version = "0.1.0"
edition = "2021"
publish = false

[dependencies]
cc2650 = "=0.1.1"
cortex-m = "=0.7.10"
critical-section = "=1.2.0"
embassy-hal-internal = { version = "=0.5.0", features = ["cortex-m", "prio-bits-3"] }
embassy-sync = "=0.8.0"
embassy-time-driver = { version = "=0.2.2", features = ["tick-hz-32_768"] }
embassy-time-queue-utils = { version = "=0.3.2", features = ["generic-queue-64"] }
static_cell = "=2.1.1"
vcell = "=0.1.3"
