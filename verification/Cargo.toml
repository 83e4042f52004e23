[package]
name = "control_display"
version = "0.1.0"
edition = "2021"
publish = false

[dependencies]
conrod_core = "=0.66.0"
daggy = "=0.5.0"
