[package]
name = "esp_error"
version = "0.1.0"
edition = "2021"
publish = false

[dependencies]
anyhow = "1"
cstr_core = "*"
