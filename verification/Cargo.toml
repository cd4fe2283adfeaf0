[package]
name = "utils"
version = "0.1.0"
edition = "2021"
publish = false

[dependencies]
chrono = "0.4"
colored = "*"
flexi_logger = "*"
libc = "0.2"
log = "0.4"
