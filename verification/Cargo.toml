[package]
name = "motor_rtu"
version = "0.1.0"
edition = "2021"
publish = false

[dependencies]
modbus-core = "*"
embassy-time = "*"
embedded-io-async = "*"
