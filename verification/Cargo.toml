[package]
name = "veml6030"
version = "0.1.0"
edition = "2021"
publish = false

[dependencies]
embedded-hal = "=1.0.0"
embedded-hal-async = "=1.0.0"
log = "=0.4.35"
thiserror = "=2.0.21"
thiserror-no-std = "=2.0.2"
